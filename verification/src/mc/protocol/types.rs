//! PLC series and frame variants.

use vstd::prelude::*;

verus! {

/// MC frame variant for Mitsubishi PLC communication.
///
/// The ASCII variants are declared for configuration only: no codec path
/// accepts them.
#[derive(Debug, Clone, Copy, PartialEq, Eq, Structural)]
pub enum McFrameVariant {
    /// A-compatible 1E frame, binary encoding.
    Frame1EBinary,
    /// QnA-compatible 3E frame, binary encoding.
    Frame3EBinary,
    /// QnA-compatible 4E frame, binary encoding.
    Frame4EBinary,
    /// QnA-compatible 3E frame, ASCII encoding.
    Frame3EAscii,
    /// QnA-compatible 4E frame, ASCII encoding.
    Frame4EAscii,
}

impl McFrameVariant {
    /// Request sub-header of each frame family.
    pub open spec fn sub_header_spec(self) -> u16 {
        match self {
            McFrameVariant::Frame3EBinary | McFrameVariant::Frame3EAscii => 0x0050,
            McFrameVariant::Frame4EBinary | McFrameVariant::Frame4EAscii => 0x0054,
            McFrameVariant::Frame1EBinary => 0x0000,
        }
    }

    /// Derive the MC request sub-header from the frame variant.
    pub fn sub_header(&self) -> (r: u16)
        ensures
            r == self.sub_header_spec(),
    {
        match self {
            McFrameVariant::Frame3EBinary | McFrameVariant::Frame3EAscii => 0x0050,
            McFrameVariant::Frame4EBinary | McFrameVariant::Frame4EAscii => 0x0054,
            McFrameVariant::Frame1EBinary => 0x0000,
        }
    }
}

/// PLC series for the MC protocol (A/QnA/Q/L/iQ-R).
#[derive(Debug, Clone, Copy, PartialEq, Eq, Structural)]
pub enum McSeries {
    /// A series, typically using the 1E frame.
    A,
    /// QnA series, commonly using 3E/4E frames.
    QnA,
    /// Q/L series.
    QL,
    /// iQ-R series.
    IQR,
}

impl McSeries {
    /// Frame variant that each series talks.
    pub open spec fn frame_variant_spec(self) -> McFrameVariant {
        if self is A {
            McFrameVariant::Frame1EBinary
        } else {
            McFrameVariant::Frame3EBinary
        }
    }

    /// Most word units of one batch read or write.
    pub open spec fn batch_words_max(self) -> u16 {
        match self {
            McSeries::A => 10,
            McSeries::QnA => 480,
            McSeries::QL | McSeries::IQR => 960,
        }
    }

    /// Most word units of one random read; 0 where the series has none.
    pub open spec fn random_read_words_max(self) -> u16 {
        match self {
            McSeries::A => 0,
            McSeries::QL => 192,
            McSeries::QnA | McSeries::IQR => 96,
        }
    }

    /// Weighted size limit of one random write.
    pub open spec fn random_write_words_max(self) -> u16 {
        match self {
            McSeries::A => 10,
            McSeries::QL => 1920,
            McSeries::QnA | McSeries::IQR => 960,
        }
    }

    /// Most bit units of one random write.
    pub open spec fn random_write_bits_max(self) -> u16 {
        match self {
            McSeries::A => 80,
            McSeries::QL => 188,
            McSeries::QnA | McSeries::IQR => 94,
        }
    }

    /// Return true if this series uses the legacy A-compatible 1E frame.
    pub fn uses_1e(&self) -> (r: bool)
        ensures
            r == (self is A),
    {
        matches!(self, McSeries::A)
    }

    /// Frame variant used to talk to this series.
    pub fn frame_variant(&self) -> (r: McFrameVariant)
        ensures
            r == self.frame_variant_spec(),
    {
        match self {
            McSeries::A => McFrameVariant::Frame1EBinary,
            McSeries::QnA => McFrameVariant::Frame3EBinary,
            McSeries::QL => McFrameVariant::Frame3EBinary,
            McSeries::IQR => McFrameVariant::Frame3EBinary,
        }
    }

    /// Maximum number of word units for a batch read or write.
    pub fn device_batch_in_word_points_max(&self) -> (r: u16)
        ensures
            r == self.batch_words_max(),
    {
        match self {
            McSeries::A => 10,
            McSeries::QnA => 480,
            McSeries::QL => 960,
            McSeries::IQR => 960,
        }
    }

    /// Maximum number of word units for a random read.
    pub fn device_random_read_in_word_points_max(&self) -> (r: u16)
        ensures
            r == self.random_read_words_max(),
    {
        match self {
            McSeries::A => 0,
            McSeries::QnA => 96,
            McSeries::QL => 192,
            McSeries::IQR => 96,
        }
    }

    /// Maximum weighted size for a random write.
    pub fn device_random_write_in_word_points_max(&self) -> (r: u16)
        ensures
            r == self.random_write_words_max(),
    {
        match self {
            McSeries::A => 10,
            McSeries::QnA => 960,
            McSeries::QL => 1920,
            McSeries::IQR => 960,
        }
    }

    /// Maximum number of bit units for a random write.
    pub fn device_random_write_in_bit_points_max(&self) -> (r: u16)
        ensures
            r == self.random_write_bits_max(),
    {
        match self {
            McSeries::A => 80,
            McSeries::QnA => 94,
            McSeries::QL => 188,
            McSeries::IQR => 94,
        }
    }
}

} // verus!
