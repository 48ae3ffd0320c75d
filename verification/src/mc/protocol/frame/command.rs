//! MC command kinds, their wire codes and subcommands.

use super::super::types::McSeries;
use vstd::prelude::*;

verus! {

/// MC command kind, grouped by semantics. Each variant stands for one
/// wire-level command code.
#[derive(Debug, Clone, Copy, PartialEq, Eq, Structural)]
pub enum McCommandKind {
    // 1E-only variants (bit/word batch access & random write)
    DeviceAccessBatchReadBit1E,
    DeviceAccessBatchReadWord1E,
    DeviceAccessBatchWriteBit1E,
    DeviceAccessBatchWriteWord1E,
    DeviceAccessRandomWriteBit1E,
    DeviceAccessRandomWriteWord1E,

    // 3E/4E device access
    DeviceAccessBatchReadUnits,
    DeviceAccessBatchWriteUnits,
    DeviceAccessRandomReadUnits,
    DeviceAccessRandomWriteUnits,
    DeviceAccessBatchReadMultipleBlocks,
    DeviceAccessBatchWriteMultipleBlocks,

    // 3E/4E label access
    LabelAccessBatchReadArray,
    LabelAccessBatchWriteArray,
    LabelAccessRandomReadLabels,
    LabelAccessRandomWriteLabels,

    // 3E/4E buffer memory access
    BufferMemoryBatchRead,
    BufferMemoryBatchWrite,
    BufferMemoryIFModuleBatchRead,
    BufferMemoryIFModuleBatchWrite,

    // 3E/4E module control
    ModuleControlRemoteRun,
    ModuleControlRemoteStop,
    ModuleControlRemotePause,
    ModuleControlRemoteLatchClear,
    ModuleControlRemoteReset,
    ModuleControlReadCpuModelName,
    ModuleControlPasswordUnlock,
    ModuleControlPasswordLock,
    ModuleControlLoopbackTest,
    ModuleControlClearErrorInformation,
}

/// Raw MC command code as carried on the wire.
///
/// For 1E this is a single byte; for 3E/4E it is a 16-bit value.
#[derive(Debug, Clone, Copy, PartialEq, Eq, Structural)]
pub enum McCommandCode {
    Code1E(u8),
    Code3E4E(u16),
}

impl McCommandKind {
    /// Wire-level code of each command kind.
    pub open spec fn code_spec(self) -> McCommandCode {
        match self {
            McCommandKind::DeviceAccessBatchReadBit1E => McCommandCode::Code1E(0x00),
            McCommandKind::DeviceAccessBatchReadWord1E => McCommandCode::Code1E(0x01),
            McCommandKind::DeviceAccessBatchWriteBit1E => McCommandCode::Code1E(0x02),
            McCommandKind::DeviceAccessBatchWriteWord1E => McCommandCode::Code1E(0x03),
            McCommandKind::DeviceAccessRandomWriteBit1E => McCommandCode::Code1E(0x04),
            McCommandKind::DeviceAccessRandomWriteWord1E => McCommandCode::Code1E(0x05),
            McCommandKind::DeviceAccessBatchReadUnits => McCommandCode::Code3E4E(0x0401),
            McCommandKind::DeviceAccessBatchWriteUnits => McCommandCode::Code3E4E(0x1401),
            McCommandKind::DeviceAccessRandomReadUnits => McCommandCode::Code3E4E(0x0403),
            McCommandKind::DeviceAccessRandomWriteUnits => McCommandCode::Code3E4E(0x1402),
            McCommandKind::DeviceAccessBatchReadMultipleBlocks => McCommandCode::Code3E4E(0x0406),
            McCommandKind::DeviceAccessBatchWriteMultipleBlocks => McCommandCode::Code3E4E(0x1406),
            McCommandKind::LabelAccessBatchReadArray => McCommandCode::Code3E4E(0x041A),
            McCommandKind::LabelAccessBatchWriteArray => McCommandCode::Code3E4E(0x141A),
            McCommandKind::LabelAccessRandomReadLabels => McCommandCode::Code3E4E(0x041C),
            McCommandKind::LabelAccessRandomWriteLabels => McCommandCode::Code3E4E(0x141B),
            McCommandKind::BufferMemoryBatchRead => McCommandCode::Code3E4E(0x0613),
            McCommandKind::BufferMemoryBatchWrite => McCommandCode::Code3E4E(0x1613),
            McCommandKind::BufferMemoryIFModuleBatchRead => McCommandCode::Code3E4E(0x0601),
            McCommandKind::BufferMemoryIFModuleBatchWrite => McCommandCode::Code3E4E(0x1601),
            McCommandKind::ModuleControlRemoteRun => McCommandCode::Code3E4E(0x1001),
            McCommandKind::ModuleControlRemoteStop => McCommandCode::Code3E4E(0x1002),
            McCommandKind::ModuleControlRemotePause => McCommandCode::Code3E4E(0x1003),
            McCommandKind::ModuleControlRemoteLatchClear => McCommandCode::Code3E4E(0x1005),
            McCommandKind::ModuleControlRemoteReset => McCommandCode::Code3E4E(0x1006),
            McCommandKind::ModuleControlReadCpuModelName => McCommandCode::Code3E4E(0x0101),
            McCommandKind::ModuleControlPasswordUnlock => McCommandCode::Code3E4E(0x1630),
            McCommandKind::ModuleControlPasswordLock => McCommandCode::Code3E4E(0x1631),
            McCommandKind::ModuleControlLoopbackTest => McCommandCode::Code3E4E(0x0619),
            McCommandKind::ModuleControlClearErrorInformation => McCommandCode::Code3E4E(0x1617),
        }
    }

    /// The subcommand that requests of a series carry: iQ-R uses 0x0002 for
    /// batch and random device access, all else 0x0000.
    pub open spec fn subcommand_spec(self, series: McSeries) -> u16 {
        if series is IQR && (self is DeviceAccessBatchReadUnits || self
            is DeviceAccessBatchWriteUnits || self is DeviceAccessRandomReadUnits || self
            is DeviceAccessRandomWriteUnits) {
            0x0002
        } else {
            0x0000
        }
    }

    /// Map a semantic command kind to a concrete wire-level code.
    pub fn to_code(self) -> (r: McCommandCode)
        ensures
            r == self.code_spec(),
    {
        match self {
            McCommandKind::DeviceAccessBatchReadBit1E => McCommandCode::Code1E(0x00),
            McCommandKind::DeviceAccessBatchReadWord1E => McCommandCode::Code1E(0x01),
            McCommandKind::DeviceAccessBatchWriteBit1E => McCommandCode::Code1E(0x02),
            McCommandKind::DeviceAccessBatchWriteWord1E => McCommandCode::Code1E(0x03),
            McCommandKind::DeviceAccessRandomWriteBit1E => McCommandCode::Code1E(0x04),
            McCommandKind::DeviceAccessRandomWriteWord1E => McCommandCode::Code1E(0x05),
            McCommandKind::DeviceAccessBatchReadUnits => McCommandCode::Code3E4E(0x0401),
            McCommandKind::DeviceAccessBatchWriteUnits => McCommandCode::Code3E4E(0x1401),
            McCommandKind::DeviceAccessRandomReadUnits => McCommandCode::Code3E4E(0x0403),
            McCommandKind::DeviceAccessRandomWriteUnits => McCommandCode::Code3E4E(0x1402),
            McCommandKind::DeviceAccessBatchReadMultipleBlocks => McCommandCode::Code3E4E(0x0406),
            McCommandKind::DeviceAccessBatchWriteMultipleBlocks => McCommandCode::Code3E4E(0x1406),
            McCommandKind::LabelAccessBatchReadArray => McCommandCode::Code3E4E(0x041A),
            McCommandKind::LabelAccessBatchWriteArray => McCommandCode::Code3E4E(0x141A),
            McCommandKind::LabelAccessRandomReadLabels => McCommandCode::Code3E4E(0x041C),
            McCommandKind::LabelAccessRandomWriteLabels => McCommandCode::Code3E4E(0x141B),
            McCommandKind::BufferMemoryBatchRead => McCommandCode::Code3E4E(0x0613),
            McCommandKind::BufferMemoryBatchWrite => McCommandCode::Code3E4E(0x1613),
            McCommandKind::BufferMemoryIFModuleBatchRead => McCommandCode::Code3E4E(0x0601),
            McCommandKind::BufferMemoryIFModuleBatchWrite => McCommandCode::Code3E4E(0x1601),
            McCommandKind::ModuleControlRemoteRun => McCommandCode::Code3E4E(0x1001),
            McCommandKind::ModuleControlRemoteStop => McCommandCode::Code3E4E(0x1002),
            McCommandKind::ModuleControlRemotePause => McCommandCode::Code3E4E(0x1003),
            McCommandKind::ModuleControlRemoteLatchClear => McCommandCode::Code3E4E(0x1005),
            McCommandKind::ModuleControlRemoteReset => McCommandCode::Code3E4E(0x1006),
            McCommandKind::ModuleControlReadCpuModelName => McCommandCode::Code3E4E(0x0101),
            McCommandKind::ModuleControlPasswordUnlock => McCommandCode::Code3E4E(0x1630),
            McCommandKind::ModuleControlPasswordLock => McCommandCode::Code3E4E(0x1631),
            McCommandKind::ModuleControlLoopbackTest => McCommandCode::Code3E4E(0x0619),
            McCommandKind::ModuleControlClearErrorInformation => McCommandCode::Code3E4E(0x1617),
        }
    }

    /// Map a wire-level command code back to its semantic kind; `None` for a
    /// code that no kind has.
    pub fn from_code(code: McCommandCode) -> (r: Option<Self>)
        ensures
            match r {
                Some(kind) => kind.code_spec() == code,
                None => forall|kind: McCommandKind| #[trigger] kind.code_spec() != code,
            },
    {
        match code {
            McCommandCode::Code1E(0x00) => Some(McCommandKind::DeviceAccessBatchReadBit1E),
            McCommandCode::Code1E(0x01) => Some(McCommandKind::DeviceAccessBatchReadWord1E),
            McCommandCode::Code1E(0x02) => Some(McCommandKind::DeviceAccessBatchWriteBit1E),
            McCommandCode::Code1E(0x03) => Some(McCommandKind::DeviceAccessBatchWriteWord1E),
            McCommandCode::Code1E(0x04) => Some(McCommandKind::DeviceAccessRandomWriteBit1E),
            McCommandCode::Code1E(0x05) => Some(McCommandKind::DeviceAccessRandomWriteWord1E),
            McCommandCode::Code3E4E(0x0401) => Some(McCommandKind::DeviceAccessBatchReadUnits),
            McCommandCode::Code3E4E(0x1401) => Some(McCommandKind::DeviceAccessBatchWriteUnits),
            McCommandCode::Code3E4E(0x0403) => Some(McCommandKind::DeviceAccessRandomReadUnits),
            McCommandCode::Code3E4E(0x1402) => Some(McCommandKind::DeviceAccessRandomWriteUnits),
            McCommandCode::Code3E4E(0x0406) => Some(McCommandKind::DeviceAccessBatchReadMultipleBlocks),
            McCommandCode::Code3E4E(0x1406) => Some(McCommandKind::DeviceAccessBatchWriteMultipleBlocks),
            McCommandCode::Code3E4E(0x041A) => Some(McCommandKind::LabelAccessBatchReadArray),
            McCommandCode::Code3E4E(0x141A) => Some(McCommandKind::LabelAccessBatchWriteArray),
            McCommandCode::Code3E4E(0x041C) => Some(McCommandKind::LabelAccessRandomReadLabels),
            McCommandCode::Code3E4E(0x141B) => Some(McCommandKind::LabelAccessRandomWriteLabels),
            McCommandCode::Code3E4E(0x0613) => Some(McCommandKind::BufferMemoryBatchRead),
            McCommandCode::Code3E4E(0x1613) => Some(McCommandKind::BufferMemoryBatchWrite),
            McCommandCode::Code3E4E(0x0601) => Some(McCommandKind::BufferMemoryIFModuleBatchRead),
            McCommandCode::Code3E4E(0x1601) => Some(McCommandKind::BufferMemoryIFModuleBatchWrite),
            McCommandCode::Code3E4E(0x1001) => Some(McCommandKind::ModuleControlRemoteRun),
            McCommandCode::Code3E4E(0x1002) => Some(McCommandKind::ModuleControlRemoteStop),
            McCommandCode::Code3E4E(0x1003) => Some(McCommandKind::ModuleControlRemotePause),
            McCommandCode::Code3E4E(0x1005) => Some(McCommandKind::ModuleControlRemoteLatchClear),
            McCommandCode::Code3E4E(0x1006) => Some(McCommandKind::ModuleControlRemoteReset),
            McCommandCode::Code3E4E(0x0101) => Some(McCommandKind::ModuleControlReadCpuModelName),
            McCommandCode::Code3E4E(0x1630) => Some(McCommandKind::ModuleControlPasswordUnlock),
            McCommandCode::Code3E4E(0x1631) => Some(McCommandKind::ModuleControlPasswordLock),
            McCommandCode::Code3E4E(0x0619) => Some(McCommandKind::ModuleControlLoopbackTest),
            McCommandCode::Code3E4E(0x1617) => Some(McCommandKind::ModuleControlClearErrorInformation),
            _ => None,
        }
    }

    /// The default subcommand for this command and PLC series.
    pub fn default_subcommand(self, series: McSeries) -> (r: u16)
        ensures
            r == self.subcommand_spec(series),
    {
        match (self, series) {
            (McCommandKind::DeviceAccessBatchReadUnits, McSeries::IQR) => 0x0002,
            (McCommandKind::DeviceAccessBatchWriteUnits, McSeries::IQR) => 0x0002,
            (McCommandKind::DeviceAccessRandomReadUnits, McSeries::IQR) => 0x0002,
            (McCommandKind::DeviceAccessRandomWriteUnits, McSeries::IQR) => 0x0002,
            _ => 0x0000,
        }
    }
}

/// No two command kinds share a wire code, so a code that `from_code` maps to
/// a kind is mapped to the only kind that has it.
pub proof fn command_codes_are_distinct(a: McCommandKind, b: McCommandKind)
    requires
        a.code_spec() == b.code_spec(),
    ensures
        a == b,
{
}

} // verus!
