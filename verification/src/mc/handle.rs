//! Data-plane decisions of the MC driver: which points can be read or written
//! and how, how reads are shared out over the pool of connections, and what
//! becomes of the results.

use super::codec::{cast_error_text, value_bytes, McCodec};
use super::protocol::frame::addr::McLogicalAddress;
use super::protocol::frame::device::McDeviceType;
use super::protocol::order::SortKey;
use super::protocol::planner::{PlannerConfig, WriteEntry};
use super::types::{McChannelConfig, McParameter, McPoint};
use crate::gateway::{
    config_error, execution_error, validation_error, DataType, DriverError, NGValue,
};
use crate::text::{text3, text5};
use crate::wire::{bytes_content, bytes_from_vec, twos, twos_of};
use vstd::prelude::*;

verus! {

/// Connection pool for MC protocol sessions.
///
/// The MC protocol is strictly serial on a connection, so concurrency comes
/// from several independent connections, picked in turn.
pub struct McSessionPool<S> {
    sessions: Vec<S>,
    rr: usize,
}

impl<S> McSessionPool<S> {
    /// The sessions of the pool.
    pub closed spec fn members(self) -> Seq<S> {
        self.sessions@
    }

    /// How often a session was picked in turn, as far as the counter reaches.
    pub closed spec fn turn(self) -> int {
        self.rr as int
    }

    /// Create a new pool from a list of active protocol sessions.
    pub fn new(sessions: Vec<S>) -> (r: Self)
        ensures
            r.members() == sessions@,
            r.turn() == 0,
    {
        Self { sessions, rr: 0 }
    }

    /// Pick a session from the pool in turn.
    pub fn pick(&mut self) -> (r: Option<&S>)
        ensures
            final(self).members() == old(self).members(),
            if old(self).members().len() == 0 {
                r is None && final(self).turn() == old(self).turn()
            } else {
                &&& r == Some(&old(self).members()[old(self).turn() % old(self).members().len() as int])
                &&& final(self).turn() == if old(self).turn() == usize::MAX {
                    0
                } else {
                    old(self).turn() + 1
                }
            },
    {
        let n: usize = self.sessions.len();
        if n == 0 {
            return None;
        }
        let i: usize = self.rr % n;
        self.rr = self.rr.wrapping_add(1);
        Some(&self.sessions[i])
    }

    /// Pick a session by explicit index (for deterministic batch distribution).
    pub fn pick_by_index(&self, idx: usize) -> (r: Option<&S>)
        ensures
            if self.members().len() == 0 {
                r is None
            } else {
                r == Some(&self.members()[idx as int % self.members().len() as int])
            },
    {
        let n: usize = self.sessions.len();
        if n == 0 {
            return None;
        }
        Some(&self.sessions[idx % n])
    }

    /// Number of sessions in the pool.
    pub fn pool_size(&self) -> (r: usize)
        ensures
            r == self.members().len(),
    {
        self.sessions.len()
    }
}

/// Picking in turn visits every session: session `k` is picked by the turn
/// `k` turns after the first session was.
pub proof fn every_session_has_its_turn<S>(pool: McSessionPool<S>, k: int)
    requires
        0 <= k < pool.members().len(),
        pool.turn() % pool.members().len() as int == 0,
    ensures
        pool.members()[(pool.turn() + k) % pool.members().len() as int] == pool.members()[k],
{
    let n = pool.members().len() as int;
    let t = pool.turn();
    assert((t + k) % n == k) by (nonlinear_arith)
        requires
            t % n == 0,
            0 <= k < n,
    ;
}

/// Namespace of the collection group of a channel.
pub const KIND_MC_CHANNEL: u32 = 0x4D43_4348;

/// Devices of one channel are collected together: the namespace and the
/// channel's identifier, sign extended to 64 bits.
pub fn collection_group_key(channel_id: i32) -> (r: (u32, u64))
    ensures
        r == (KIND_MC_CHANNEL, twos(channel_id as int) as u64),
{
    (KIND_MC_CHANNEL, twos_of(channel_id as i64))
}

/// The greater of a configured number and 1; 1 where none is configured.
pub open spec fn at_least_one(n: Option<u32>) -> u32 {
    match n {
        Some(v) => if v == 0 {
            1
        } else {
            v
        },
        None => 1,
    }
}

/// The planner limits of a channel: what is configured, else what the series
/// allows and 4096 bytes; at least 1.
pub open spec fn planner_limits(c: McChannelConfig) -> (u16, u16) {
    let points = match c.max_points_per_batch {
        Some(n) => n,
        None => c.series.batch_words_max(),
    };
    let bytes = match c.max_bytes_per_frame {
        Some(n) => n,
        None => 4096,
    };
    (
        if points == 0 {
            1
        } else {
            points
        },
        if bytes == 0 {
            1
        } else {
            bytes
        },
    )
}

impl McChannelConfig {
    /// Number of connections of the channel's pool.
    pub fn effective_pool_size(&self) -> (r: usize)
        ensures
            r == at_least_one(self.concurrent_requests),
    {
        match self.concurrent_requests {
            Some(v) => if v == 0 {
                1
            } else {
                v as usize
            },
            None => 1,
        }
    }

    /// The planner limits of the channel.
    pub fn planner_config(&self) -> (r: PlannerConfig)
        ensures
            (r.max_points_per_batch, r.max_bytes_per_frame) == planner_limits(*self),
    {
        let points: u16 = match self.max_points_per_batch {
            Some(n) => n,
            None => self.series.device_batch_in_word_points_max(),
        };
        let bytes: u16 = match self.max_bytes_per_frame {
            Some(n) => n,
            None => 4096,
        };
        PlannerConfig::new(
            if points == 0 {
                1
            } else {
                points
            },
            if bytes == 0 {
                1
            } else {
                bytes
            },
        )
    }
}

/// Number of words that a value of a data type takes, or why there is none.
/// The length of a string is configured in bytes and rounded up to whole words.
pub open spec fn words_spec(t: DataType, string_len_bytes: Option<u16>) -> Result<u16, Seq<char>> {
    match t {
        DataType::Boolean
        | DataType::Int8
        | DataType::UInt8
        | DataType::Int16
        | DataType::UInt16 => Ok(1),
        DataType::Int32 | DataType::UInt32 | DataType::Float32 => Ok(2),
        DataType::Int64 | DataType::UInt64 | DataType::Float64 => Ok(4),
        DataType::String => match string_len_bytes {
            None => Err("MC String point requires stringLenBytes configuration"@),
            Some(n) => Ok(
                (if n == 0 {
                    1
                } else {
                    (n + 1) / 2
                }) as u16,
            ),
        },
        DataType::Binary | DataType::Timestamp => Err(
            "MC Binary/Timestamp data types are not supported yet"@,
        ),
    }
}

/// Compute the word-length (MC "points") for a given data type.
pub fn words_for_data_type(data_type: DataType, string_len_bytes: Option<u16>) -> (r: Result<
    u16,
    DriverError,
>)
    ensures
        match words_spec(data_type, string_len_bytes) {
            Ok(n) => r == Ok::<u16, DriverError>(n),
            Err(text) => r matches Err(e) && config_error(e, text),
        },
{
    match data_type {
        DataType::Boolean
        | DataType::Int8
        | DataType::UInt8
        | DataType::Int16
        | DataType::UInt16 => Ok(1),
        DataType::Int32 | DataType::UInt32 | DataType::Float32 => Ok(2),
        DataType::Int64 | DataType::UInt64 | DataType::Float64 => Ok(4),
        DataType::String => match string_len_bytes {
            None => Err(
                DriverError::ConfigurationError(
                    "MC String point requires stringLenBytes configuration".to_owned(),
                ),
            ),
            Some(n) => Ok(
                if n == 0 {
                    1
                } else {
                    n / 2 + n % 2
                },
            ),
        },
        DataType::Binary | DataType::Timestamp => Err(
            DriverError::ConfigurationError(
                "MC Binary/Timestamp data types are not supported yet".to_owned(),
            ),
        ),
    }
}

/// A value has room in the words that are read or written for its type.
pub proof fn numbers_fit_their_words(t: DataType, n: u16)
    requires
        words_spec(t, None) == Ok::<u16, Seq<char>>(n),
    ensures
        super::codec::least_payload(t) <= 2 * n,
{
}

/// What an address is used for; the error texts name it.
pub enum Access<'a> {
    /// Reading the point with this key.
    Collect(&'a str),
    /// Writing a parameter of the action with this name.
    Action(&'a str),
    /// Writing a point.
    Write,
}

/// What an address is used for, as mathematical data.
pub enum AccessFor {
    Collect(Seq<char>),
    Action(Seq<char>),
    Write,
}

impl<'a> View for Access<'a> {
    type V = AccessFor;

    open spec fn view(&self) -> AccessFor {
        match self {
            Access::Collect(key) => AccessFor::Collect(key@),
            Access::Action(name) => AccessFor::Action(name@),
            Access::Write => AccessFor::Write,
        }
    }
}

/// The operation in error texts on the form of an address.
pub open spec fn operation(a: AccessFor) -> Seq<char> {
    match a {
        AccessFor::Collect(_) => "collect_data"@,
        AccessFor::Action(_) => "execute_action"@,
        AccessFor::Write => "write_point"@,
    }
}

/// The end of the error text for a bit device with another data type.
pub open spec fn boolean_only(a: AccessFor) -> Seq<char> {
    match a {
        AccessFor::Collect(key) => " only supports Boolean data type for point '"@ + key + "'"@,
        AccessFor::Action(name) => " only supports Boolean data type in action '"@ + name + "'"@,
        AccessFor::Write => " only supports Boolean data type for write_point"@,
    }
}

/// The end of the error text for a device that batches must not touch.
pub open spec fn not_allowed(a: AccessFor) -> Seq<char> {
    match a {
        AccessFor::Collect(key) => " is not allowed for batch word read (point '"@ + key + "')"@,
        AccessFor::Action(name) => " is not allowed for batch word write (action '"@ + name + "')"@,
        AccessFor::Write => " is not allowed for batch word write (write_point)"@,
    }
}

/// The device must not be touched by a batch.
pub open spec fn forbidden(a: AccessFor, d: McDeviceType) -> bool {
    match a {
        AccessFor::Collect(_) => d.no_batch_read_spec(),
        _ => d.no_batch_write_spec(),
    }
}

/// Number of points and device code with which an address is accessed, or why
/// it cannot be: a bit device holds booleans and takes no bit index, a word or
/// double word device takes no bit index and must be open to batches.
pub open spec fn target_spec(
    a: AccessFor,
    addr: McLogicalAddress,
    raw: Seq<char>,
    t: DataType,
    string_len_bytes: Option<u16>,
) -> Result<(u16, u16), Seq<char>> {
    let d = addr.device;
    if d.bit_spec() {
        if !(t is Boolean) {
            Err("MC bit device "@ + d.symbol_spec() + boolean_only(a))
        } else if addr.bit is Some {
            Err("Bit-indexed MC address '"@ + raw + "' is not supported yet for "@ + operation(a))
        } else {
            Ok((1, d.code_3e_spec()))
        }
    } else if addr.bit is Some || (!d.word_spec() && !d.dword_spec()) {
        Err("Unsupported MC address for "@ + operation(a) + ": '"@ + raw + "'"@)
    } else if forbidden(a, d) {
        Err("MC device type "@ + d.symbol_spec() + not_allowed(a))
    } else {
        match words_spec(t, string_len_bytes) {
            Ok(n) => Ok((n, d.code_3e_spec())),
            Err(e) => Err(e),
        }
    }
}

fn operation_text(a: &Access) -> (r: &'static str)
    ensures
        r@ == operation(a@),
{
    match a {
        Access::Collect(_) => "collect_data",
        Access::Action(_) => "execute_action",
        Access::Write => "write_point",
    }
}

fn boolean_only_text(a: &Access) -> (r: String)
    ensures
        r@ == boolean_only(a@),
{
    match a {
        Access::Collect(key) => text3(" only supports Boolean data type for point '", key, "'"),
        Access::Action(name) => text3(" only supports Boolean data type in action '", name, "'"),
        Access::Write => " only supports Boolean data type for write_point".to_owned(),
    }
}

fn not_allowed_text(a: &Access) -> (r: String)
    ensures
        r@ == not_allowed(a@),
{
    match a {
        Access::Collect(key) => text3(" is not allowed for batch word read (point '", key, "')"),
        Access::Action(name) => text3(
            " is not allowed for batch word write (action '",
            name,
            "')",
        ),
        Access::Write => " is not allowed for batch word write (write_point)".to_owned(),
    }
}

/// Number of points and device code with which an address is accessed.
pub fn access_target(
    a: &Access,
    addr: &McLogicalAddress,
    raw: &str,
    data_type: DataType,
    string_len_bytes: Option<u16>,
) -> (r: Result<(u16, u16), DriverError>)
    ensures
        match target_spec(a@, *addr, raw@, data_type, string_len_bytes) {
            Ok(x) => r == Ok::<(u16, u16), DriverError>(x),
            Err(text) => r matches Err(e) && config_error(e, text),
        },
{
    let d = addr.device;
    let code: u16 = match d.device_code_3e() {
        Some(c) => c,
        None => 0,
    };
    if d.is_bit() {
        if data_type != DataType::Boolean {
            let end = boolean_only_text(a);
            Err(
                DriverError::ConfigurationError(
                    text3("MC bit device ", d.symbol(), end.as_str()),
                ),
            )
        } else if addr.bit.is_some() {
            let t = text3("Bit-indexed MC address '", raw, "' is not supported yet for ");
            let e = text3(t.as_str(), operation_text(a), "");
            proof {
                reveal_strlit("");
                assert(e@ =~= "Bit-indexed MC address '"@ + raw@ + "' is not supported yet for "@
                    + operation(a@));
            }
            Err(DriverError::ConfigurationError(e))
        } else {
            Ok((1, code))
        }
    } else if addr.bit.is_some() || (!d.is_word() && !d.is_dword()) {
        Err(
            DriverError::ConfigurationError(
                text5("Unsupported MC address for ", operation_text(a), ": '", raw, "'"),
            ),
        )
    } else if match a {
        Access::Collect(_) => d.is_forbidden_batch_word_read(),
        _ => d.is_forbidden_batch_word_write(),
    } {
        let end = not_allowed_text(a);
        Err(DriverError::ConfigurationError(text3("MC device type ", d.symbol(), end.as_str())))
    } else {
        match words_for_data_type(data_type, string_len_bytes) {
            Ok(n) => Ok((n, code)),
            Err(e) => Err(e),
        }
    }
}

/// Typed read of a single point.
#[derive(Debug, Clone, Copy, PartialEq, Eq, Structural)]
pub struct TypedPointReadSpec {
    /// Index of the point in the list of points to collect.
    pub index: usize,
    pub data_type: DataType,
    pub addr: McLogicalAddress,
    /// Number of words; of bits for a bit device.
    pub word_len: u16,
    pub device_code: u16,
}

impl SortKey for TypedPointReadSpec {
    open spec fn key_spec(self) -> int {
        self.device_code as int * 0x1_0000_0000 + self.addr.head as int
    }

    fn sort_key(&self) -> (k: u64) {
        self.device_code as u64 * 0x1_0000_0000 + self.addr.head as u64
    }
}

/// Error text for a point or parameter whose address was never parsed.
pub open spec fn unresolved(key: Seq<char>) -> Seq<char> {
    "MC logical address not resolved for point '"@ + key + "'"@
}

/// How the point at `index` of the list is read, or why it cannot be.
pub open spec fn read_spec(index: int, p: McPoint) -> Result<TypedPointReadSpec, Seq<char>> {
    match p.address.logical {
        None => Err(unresolved(p.key@)),
        Some(addr) => match target_spec(
            AccessFor::Collect(p.key@),
            addr,
            p.address.raw@,
            p.data_type,
            p.string_len_bytes,
        ) {
            Err(e) => Err(e),
            Ok(t) => Ok(
                TypedPointReadSpec {
                    index: index as usize,
                    data_type: p.data_type,
                    addr,
                    word_len: t.0,
                    device_code: t.1,
                },
            ),
        },
    }
}

/// How the point at `index` of the list is read, or why it cannot be.
pub fn read_one(index: usize, p: &McPoint) -> (r: Result<TypedPointReadSpec, DriverError>)
    ensures
        match read_spec(index as int, *p) {
            Ok(s) => r == Ok::<TypedPointReadSpec, DriverError>(s),
            Err(text) => r matches Err(e) && config_error(e, text),
        },
{
    match p.address.logical {
        None => Err(
            DriverError::ConfigurationError(
                text3("MC logical address not resolved for point '", p.key.as_str(), "'"),
            ),
        ),
        Some(addr) => match access_target(
            &Access::Collect(p.key.as_str()),
            &addr,
            p.address.raw.as_str(),
            p.data_type,
            p.string_len_bytes,
        ) {
            Err(e) => Err(e),
            Ok((word_len, device_code)) => Ok(
                TypedPointReadSpec { index, data_type: p.data_type, addr, word_len, device_code },
            ),
        },
    }
}

/// Why an operation is refused.
pub enum Refusal {
    Config(Seq<char>),
    Validation(Seq<char>),
    Execution(Seq<char>),
}

/// The error says why the operation is refused.
pub open spec fn refused_with(e: DriverError, why: Refusal) -> bool {
    match why {
        Refusal::Config(text) => config_error(e, text),
        Refusal::Validation(text) => validation_error(e, text),
        Refusal::Execution(text) => execution_error(e, text),
    }
}

/// A write as mathematical data.
pub struct WriteOf {
    pub addr: McLogicalAddress,
    pub word_len: u16,
    pub device_code: u16,
    pub data: Seq<u8>,
}

/// The write that an entry stands for.
pub open spec fn write_of(e: WriteEntry) -> WriteOf {
    WriteOf {
        addr: e.addr,
        word_len: e.word_len,
        device_code: e.device_code,
        data: bytes_content(e.data),
    }
}

/// A parameter of an action and the outcome of casting its value to the
/// parameter's data type.
pub struct ResolvedParameter {
    pub param: McParameter,
    pub cast: Result<NGValue, String>,
}

impl ResolvedParameter {
    /// A value that was cast has the parameter's data type.
    pub open spec fn wf(self) -> bool {
        self.cast matches Ok(v) ==> v.type_spec() == self.param.data_type
    }
}

/// How a parameter of an action is written, or why it cannot be.
pub open spec fn parameter_spec(action: Seq<char>, p: ResolvedParameter) -> Result<
    WriteOf,
    Refusal,
> {
    parameter_at_spec(action, p, p.param.address.logical)
}

/// How a parameter of an action is written at an address, or why it cannot be.
pub open spec fn parameter_at_spec(
    action: Seq<char>,
    p: ResolvedParameter,
    logical: Option<McLogicalAddress>,
) -> Result<WriteOf, Refusal> {
    match logical {
        None => Err(Refusal::Config(unresolved(p.param.key@))),
        Some(addr) => match target_spec(
            AccessFor::Action(action),
            addr,
            p.param.address.raw@,
            p.param.data_type,
            p.param.string_len_bytes,
        ) {
            Err(e) => Err(Refusal::Config(e)),
            Ok(t) => match p.cast {
                Err(why) => Err(Refusal::Execution(cast_error_text(p.param.data_type, why@))),
                Ok(v) => Ok(
                    WriteOf { addr, word_len: t.0, device_code: t.1, data: value_bytes(v) },
                ),
            },
        },
    }
}

pub(crate) fn parameter_entry_at(
    action: &str,
    p: &ResolvedParameter,
    logical: Option<McLogicalAddress>,
) -> (r: Result<WriteEntry, DriverError>)
    requires
        p.wf(),
    ensures
        match parameter_at_spec(action@, *p, logical) {
            Ok(w) => r matches Ok(e) && write_of(e) == w,
            Err(why) => r matches Err(e) && refused_with(e, why),
        },
{
    let addr = match logical {
        None => {
            return Err(
                DriverError::ConfigurationError(
                    text3("MC logical address not resolved for point '", p.param.key.as_str(), "'"),
                ),
            );
        },
        Some(a) => a,
    };
    let (word_len, device_code) = match access_target(
        &Access::Action(action),
        &addr,
        p.param.address.raw.as_str(),
        p.param.data_type,
        p.param.string_len_bytes,
    ) {
        Err(e) => {
            return Err(e);
        },
        Ok(t) => t,
    };
    match McCodec::encode_typed(p.param.data_type, &p.cast) {
        Err(e) => Err(e),
        Ok(data) => Ok(WriteEntry { addr, word_len, device_code, data: bytes_from_vec(data) }),
    }
}

/// The parameter at `i` is the first one that cannot be written.
pub open spec fn first_bad_parameter(
    action: Seq<char>,
    params: Seq<ResolvedParameter>,
    i: int,
) -> bool {
    &&& 0 <= i < params.len()
    &&& parameter_spec(action, params[i]) is Err
    &&& forall|j: int| 0 <= j < i ==> parameter_spec(action, #[trigger] params[j]) is Ok
}

/// The writes of an action, one per parameter; the first parameter that cannot
/// be written refuses them all.
pub fn action_entries(action: &str, params: &Vec<ResolvedParameter>) -> (r: Result<
    Vec<WriteEntry>,
    DriverError,
>)
    requires
        forall|i: int| 0 <= i < params@.len() ==> (#[trigger] params@[i]).wf(),
    ensures
        match r {
            Ok(v) => {
                &&& v@.len() == params@.len()
                &&& forall|i: int|
                    0 <= i < params@.len() ==> parameter_spec(action@, #[trigger] params@[i])
                        == Ok::<WriteOf, Refusal>(write_of(v@[i]))
            },
            Err(e) => exists|i: int|
                #![trigger first_bad_parameter(action@, params@, i)]
                first_bad_parameter(action@, params@, i) && refused_with(
                    e,
                    parameter_spec(action@, params@[i])->Err_0,
                ),
        },
{
    let mut out: Vec<WriteEntry> = Vec::new();
    for i in 0..params.len()
        invariant
            forall|j: int| 0 <= j < params@.len() ==> (#[trigger] params@[j]).wf(),
            out@.len() == i,
            forall|j: int|
                0 <= j < i ==> parameter_spec(action@, #[trigger] params@[j]) == Ok::<
                    WriteOf,
                    Refusal,
                >(write_of(out@[j])),
    {
        match parameter_entry_at(action, &params[i], params[i].param.address.logical) {
            Ok(e) => {
                out.push(e);
            },
            Err(e) => {
                assert(first_bad_parameter(action@, params@, i as int));
                return Err(e);
            },
        }
    }
    Ok(out)
}

/// How a point is written, or why it cannot be. `data` is the outcome of
/// turning the value of type `value_type` into bytes.
pub open spec fn point_write_spec(
    p: McPoint,
    value_type: DataType,
    data: Result<Seq<u8>, Seq<char>>,
) -> Result<WriteOf, Refusal> {
    point_write_at_spec(p, p.address.logical, value_type, data)
}

/// How a point is written at an address, or why it cannot be.
pub open spec fn point_write_at_spec(
    p: McPoint,
    logical: Option<McLogicalAddress>,
    value_type: DataType,
    data: Result<Seq<u8>, Seq<char>>,
) -> Result<WriteOf, Refusal> {
    if !p.access_mode.writeable_spec() {
        Err(Refusal::Validation("point is not writeable"@))
    } else {
        match logical {
            None => Err(Refusal::Config(unresolved(p.key@))),
            Some(addr) => match target_spec(
                AccessFor::Write,
                addr,
                p.address.raw@,
                p.data_type,
                p.string_len_bytes,
            ) {
                Err(e) => Err(Refusal::Config(e)),
                Ok(t) => match data {
                    Err(why) => Err(
                        Refusal::Validation(
                            "Expected numeric value, got "@ + value_type.name_spec() + ": "@ + why,
                        ),
                    ),
                    Ok(b) => Ok(WriteOf { addr, word_len: t.0, device_code: t.1, data: b }),
                },
            },
        }
    }
}

/// The outcome of turning a value into bytes, as mathematical data.
pub open spec fn bytes_outcome(data: Result<Vec<u8>, String>) -> Result<Seq<u8>, Seq<char>> {
    match data {
        Ok(b) => Ok(b@),
        Err(e) => Err(e@),
    }
}

/// The write of a point.
pub fn point_entry(p: &McPoint, value_type: DataType, data: Result<Vec<u8>, String>) -> (r: Result<
    WriteEntry,
    DriverError,
>)
    ensures
        match point_write_spec(*p, value_type, bytes_outcome(data)) {
            Ok(w) => r matches Ok(e) && write_of(e) == w,
            Err(why) => r matches Err(e) && refused_with(e, why),
        },
{
    point_entry_at(p, p.address.logical, value_type, data)
}

pub(crate) fn point_entry_at(
    p: &McPoint,
    logical: Option<McLogicalAddress>,
    value_type: DataType,
    data: Result<Vec<u8>, String>,
) -> (r: Result<WriteEntry, DriverError>)
    ensures
        match point_write_at_spec(*p, logical, value_type, bytes_outcome(data)) {
            Ok(w) => r matches Ok(e) && write_of(e) == w,
            Err(why) => r matches Err(e) && refused_with(e, why),
        },
{
    if !p.access_mode.is_writeable() {
        return Err(DriverError::ValidationError("point is not writeable".to_owned()));
    }
    let addr = match logical {
        None => {
            return Err(
                DriverError::ConfigurationError(
                    text3("MC logical address not resolved for point '", p.key.as_str(), "'"),
                ),
            );
        },
        Some(a) => a,
    };
    let (word_len, device_code) = match access_target(
        &Access::Write,
        &addr,
        p.address.raw.as_str(),
        p.data_type,
        p.string_len_bytes,
    ) {
        Err(e) => {
            return Err(e);
        },
        Ok(t) => t,
    };
    match data {
        Err(why) => {
            let head = text3("Expected numeric value, got ", value_type.name(), ": ");
            let e = text3(head.as_str(), why.as_str(), "");
            proof {
                reveal_strlit("");
                assert(e@ =~= "Expected numeric value, got "@ + value_type.name_spec() + ": "@
                    + why@);
            }
            Err(DriverError::ValidationError(e))
        },
        Ok(b) => Ok(WriteEntry { addr, word_len, device_code, data: bytes_from_vec(b) }),
    }
}

} // verus!
