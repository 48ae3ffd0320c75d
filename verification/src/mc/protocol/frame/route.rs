//! Access routes carried by MC frames.

use crate::wire::le_bytes;
use vstd::prelude::*;

verus! {

/// MC access route for the 1E frame: a single PC number.
#[derive(Debug, Clone, Copy, PartialEq, Eq, Structural)]
pub struct McRoute1E {
    /// PC number (1 byte on the wire).
    pub pc_number: u8,
}

impl McRoute1E {
    /// Create a default 1E route (PC number = 0xFF).
    pub fn default_1e() -> (r: Self)
        ensures
            r.pc_number == 0xFF,
    {
        Self { pc_number: 0xFF }
    }

    /// Byte length of the encoded route (1 byte).
    pub fn byte_len() -> (r: usize)
        ensures
            r == 1,
    {
        1
    }
}

/// MC access route for 3E/4E frames: network, PC, module I/O and station.
#[derive(Debug, Clone, Copy, PartialEq, Eq, Structural)]
pub struct McRoute3E4E {
    /// Network number (1 byte).
    pub network_number: u8,
    /// PC number (1 byte).
    pub pc_number: u8,
    /// Request destination module I/O number (2 bytes).
    pub module_io_number: u16,
    /// Request destination module station number (1 byte).
    pub station_number: u8,
}

impl McRoute3E4E {
    /// The five bytes of the route on the wire.
    pub open spec fn encoded(self) -> Seq<u8> {
        seq![self.network_number, self.pc_number] + le_bytes(self.module_io_number as nat, 2)
            + seq![self.station_number]
    }

    /// Byte length of the encoded route (5 bytes).
    pub fn byte_len() -> (r: usize)
        ensures
            r == 5,
    {
        5
    }
}

impl Default for McRoute3E4E {
    /// The route to the CPU of the own station.
    fn default() -> (r: Self)
        ensures
            r == (McRoute3E4E {
                network_number: 0x00,
                pc_number: 0xFF,
                module_io_number: 0x03FF,
                station_number: 0x00,
            }),
    {
        Self { network_number: 0x00, pc_number: 0xFF, module_io_number: 0x03FF, station_number: 0x00 }
    }
}

} // verus!
