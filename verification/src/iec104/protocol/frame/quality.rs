//! Bytes of information objects: states with quality descriptors, commands and
//! qualifiers. The first field of each stands in the highest bits.

use vstd::prelude::*;

verus! {

/// The weight of a bit that is set or not.
pub open spec fn weight(set: bool, value: int) -> int {
    if set {
        value
    } else {
        0
    }
}

fn weigh(set: bool, value: u8) -> (r: u8)
    ensures
        r == weight(set, value as int),
{
    if set {
        value
    } else {
        0
    }
}

/// Single-point information with quality descriptor.
#[derive(Debug, Clone, Copy, PartialEq, Eq, Structural)]
pub struct ObjectSIQ {
    pub raw: u8,
}

impl ObjectSIQ {
    /// The value is invalid.
    pub open spec fn invalid_spec(self) -> bool {
        self.raw >= 128
    }

    /// The value is invalid.
    pub fn invalid(&self) -> (r: bool)
        ensures
            r == self.invalid_spec(),
    {
        self.raw >= 128
    }

    /// The value is not topical.
    pub open spec fn nt_spec(self) -> bool {
        self.raw / 64 % 2 == 1
    }

    /// The value is not topical.
    pub fn nt(&self) -> (r: bool)
        ensures
            r == self.nt_spec(),
    {
        self.raw / 64 % 2 == 1
    }

    /// The value was substituted.
    pub open spec fn sb_spec(self) -> bool {
        self.raw / 32 % 2 == 1
    }

    /// The value was substituted.
    pub fn sb(&self) -> (r: bool)
        ensures
            r == self.sb_spec(),
    {
        self.raw / 32 % 2 == 1
    }

    /// The value is blocked.
    pub open spec fn bl_spec(self) -> bool {
        self.raw / 16 % 2 == 1
    }

    /// The value is blocked.
    pub fn bl(&self) -> (r: bool)
        ensures
            r == self.bl_spec(),
    {
        self.raw / 16 % 2 == 1
    }

    /// Spare bits.
    pub open spec fn res_spec(self) -> u8 {
        self.raw / 2 % 8
    }

    /// Spare bits.
    pub fn res(&self) -> (r: u8)
        ensures
            r == self.res_spec(),
    {
        self.raw / 2 % 8
    }

    /// State of the point.
    pub open spec fn spi_spec(self) -> bool {
        self.raw % 2 == 1
    }

    /// State of the point.
    pub fn spi(&self) -> (r: bool)
        ensures
            r == self.spi_spec(),
    {
        self.raw % 2 == 1
    }

    pub fn new(invalid: bool, nt: bool, sb: bool, bl: bool, res: u8, spi: bool) -> (r: Self)
        requires
            res < 8,
        ensures
            r.raw == weight(invalid, 128) + weight(nt, 64) + weight(sb, 32) + weight(bl, 16) + res * 2 + weight(spi, 1),
            r.invalid_spec() == invalid,
            r.nt_spec() == nt,
            r.sb_spec() == sb,
            r.bl_spec() == bl,
            r.res_spec() == res,
            r.spi_spec() == spi,
    {
        let raw: u8 = weigh(invalid, 128) + weigh(nt, 64) + weigh(sb, 32) + weigh(bl, 16) + res * 2 + weigh(spi, 1);
        proof {
            assert(raw / 128 == weight(invalid, 1));
            assert(raw / 64 == weight(invalid, 2) + weight(nt, 1));
            assert(raw / 32 == weight(invalid, 4) + weight(nt, 2) + weight(sb, 1));
            assert(raw / 16 == weight(invalid, 8) + weight(nt, 4) + weight(sb, 2) + weight(bl, 1));
            assert(raw / 2 == weight(invalid, 64) + weight(nt, 32) + weight(sb, 16) + weight(bl, 8) + res);
        }
        ObjectSIQ { raw }
    }

    /// The state without any quality flag.
    pub fn new_with_value(value: bool) -> (r: Self)
        ensures
            r.raw == weight(value, 1),
            r.spi_spec() == value,
    {
        ObjectSIQ::new(false, false, false, false, 0, value)
    }
}

/// Double-point information with quality descriptor.
#[derive(Debug, Clone, Copy, PartialEq, Eq, Structural)]
pub struct ObjectDIQ {
    pub raw: u8,
}

impl ObjectDIQ {
    /// The value is invalid.
    pub open spec fn invalid_spec(self) -> bool {
        self.raw >= 128
    }

    /// The value is invalid.
    pub fn invalid(&self) -> (r: bool)
        ensures
            r == self.invalid_spec(),
    {
        self.raw >= 128
    }

    /// The value is not topical.
    pub open spec fn nt_spec(self) -> bool {
        self.raw / 64 % 2 == 1
    }

    /// The value is not topical.
    pub fn nt(&self) -> (r: bool)
        ensures
            r == self.nt_spec(),
    {
        self.raw / 64 % 2 == 1
    }

    /// The value was substituted.
    pub open spec fn sb_spec(self) -> bool {
        self.raw / 32 % 2 == 1
    }

    /// The value was substituted.
    pub fn sb(&self) -> (r: bool)
        ensures
            r == self.sb_spec(),
    {
        self.raw / 32 % 2 == 1
    }

    /// The value is blocked.
    pub open spec fn bl_spec(self) -> bool {
        self.raw / 16 % 2 == 1
    }

    /// The value is blocked.
    pub fn bl(&self) -> (r: bool)
        ensures
            r == self.bl_spec(),
    {
        self.raw / 16 % 2 == 1
    }

    /// Spare bits.
    pub open spec fn res_spec(self) -> u8 {
        self.raw / 4 % 4
    }

    /// Spare bits.
    pub fn res(&self) -> (r: u8)
        ensures
            r == self.res_spec(),
    {
        self.raw / 4 % 4
    }

    /// State of the point.
    pub open spec fn spi_spec(self) -> u8 {
        self.raw % 4
    }

    /// State of the point.
    pub fn spi(&self) -> (r: u8)
        ensures
            r == self.spi_spec(),
    {
        self.raw % 4
    }

    pub fn new(invalid: bool, nt: bool, sb: bool, bl: bool, res: u8, spi: u8) -> (r: Self)
        requires
            res < 4,
            spi < 4,
        ensures
            r.raw == weight(invalid, 128) + weight(nt, 64) + weight(sb, 32) + weight(bl, 16) + res * 4 + spi,
            r.invalid_spec() == invalid,
            r.nt_spec() == nt,
            r.sb_spec() == sb,
            r.bl_spec() == bl,
            r.res_spec() == res,
            r.spi_spec() == spi,
    {
        let raw: u8 = weigh(invalid, 128) + weigh(nt, 64) + weigh(sb, 32) + weigh(bl, 16) + res * 4 + spi;
        proof {
            assert(raw / 128 == weight(invalid, 1));
            assert(raw / 64 == weight(invalid, 2) + weight(nt, 1));
            assert(raw / 32 == weight(invalid, 4) + weight(nt, 2) + weight(sb, 1));
            assert(raw / 16 == weight(invalid, 8) + weight(nt, 4) + weight(sb, 2) + weight(bl, 1));
            assert(raw / 4 == weight(invalid, 32) + weight(nt, 16) + weight(sb, 8) + weight(bl, 4) + res);
        }
        ObjectDIQ { raw }
    }
}

/// Quality descriptor.
#[derive(Debug, Clone, Copy, PartialEq, Eq, Structural)]
pub struct ObjectQDS {
    pub raw: u8,
}

impl ObjectQDS {
    /// The value is invalid.
    pub open spec fn invalid_spec(self) -> bool {
        self.raw >= 128
    }

    /// The value is invalid.
    pub fn invalid(&self) -> (r: bool)
        ensures
            r == self.invalid_spec(),
    {
        self.raw >= 128
    }

    /// The value is not topical.
    pub open spec fn nt_spec(self) -> bool {
        self.raw / 64 % 2 == 1
    }

    /// The value is not topical.
    pub fn nt(&self) -> (r: bool)
        ensures
            r == self.nt_spec(),
    {
        self.raw / 64 % 2 == 1
    }

    /// The value was substituted.
    pub open spec fn sb_spec(self) -> bool {
        self.raw / 32 % 2 == 1
    }

    /// The value was substituted.
    pub fn sb(&self) -> (r: bool)
        ensures
            r == self.sb_spec(),
    {
        self.raw / 32 % 2 == 1
    }

    /// The value is blocked.
    pub open spec fn bl_spec(self) -> bool {
        self.raw / 16 % 2 == 1
    }

    /// The value is blocked.
    pub fn bl(&self) -> (r: bool)
        ensures
            r == self.bl_spec(),
    {
        self.raw / 16 % 2 == 1
    }

    /// Spare bits.
    pub open spec fn res_spec(self) -> u8 {
        self.raw / 2 % 8
    }

    /// Spare bits.
    pub fn res(&self) -> (r: u8)
        ensures
            r == self.res_spec(),
    {
        self.raw / 2 % 8
    }

    /// The value overflowed.
    pub open spec fn ov_spec(self) -> bool {
        self.raw % 2 == 1
    }

    /// The value overflowed.
    pub fn ov(&self) -> (r: bool)
        ensures
            r == self.ov_spec(),
    {
        self.raw % 2 == 1
    }

    pub fn new(invalid: bool, nt: bool, sb: bool, bl: bool, res: u8, ov: bool) -> (r: Self)
        requires
            res < 8,
        ensures
            r.raw == weight(invalid, 128) + weight(nt, 64) + weight(sb, 32) + weight(bl, 16) + res * 2 + weight(ov, 1),
            r.invalid_spec() == invalid,
            r.nt_spec() == nt,
            r.sb_spec() == sb,
            r.bl_spec() == bl,
            r.res_spec() == res,
            r.ov_spec() == ov,
    {
        let raw: u8 = weigh(invalid, 128) + weigh(nt, 64) + weigh(sb, 32) + weigh(bl, 16) + res * 2 + weigh(ov, 1);
        proof {
            assert(raw / 128 == weight(invalid, 1));
            assert(raw / 64 == weight(invalid, 2) + weight(nt, 1));
            assert(raw / 32 == weight(invalid, 4) + weight(nt, 2) + weight(sb, 1));
            assert(raw / 16 == weight(invalid, 8) + weight(nt, 4) + weight(sb, 2) + weight(bl, 1));
            assert(raw / 2 == weight(invalid, 64) + weight(nt, 32) + weight(sb, 16) + weight(bl, 8) + res);
        }
        ObjectQDS { raw }
    }
}

/// Value with transient state indication.
#[derive(Debug, Clone, Copy, PartialEq, Eq, Structural)]
pub struct ObjectVTI {
    pub raw: u8,
}

impl ObjectVTI {
    /// The equipment is in transient state.
    pub open spec fn transient_spec(self) -> bool {
        self.raw >= 128
    }

    /// The equipment is in transient state.
    pub fn transient(&self) -> (r: bool)
        ensures
            r == self.transient_spec(),
    {
        self.raw >= 128
    }

    /// The value.
    pub open spec fn value_spec(self) -> u8 {
        self.raw % 128
    }

    /// The value.
    pub fn value(&self) -> (r: u8)
        ensures
            r == self.value_spec(),
    {
        self.raw % 128
    }

    pub fn new(transient: bool, value: u8) -> (r: Self)
        requires
            value < 128,
        ensures
            r.raw == weight(transient, 128) + value,
            r.transient_spec() == transient,
            r.value_spec() == value,
    {
        let raw: u8 = weigh(transient, 128) + value;
        proof {
            assert(raw / 128 == weight(transient, 1));
        }
        ObjectVTI { raw }
    }
}

/// Single event of protection equipment; the lowest bit is spare.
#[derive(Debug, Clone, Copy, PartialEq, Eq, Structural)]
pub struct ObjectSEP {
    pub raw: u8,
}

impl ObjectSEP {
    /// The value is invalid.
    pub open spec fn invalid_spec(self) -> bool {
        self.raw >= 128
    }

    /// The value is invalid.
    pub fn invalid(&self) -> (r: bool)
        ensures
            r == self.invalid_spec(),
    {
        self.raw >= 128
    }

    /// The value is not topical.
    pub open spec fn nt_spec(self) -> bool {
        self.raw / 64 % 2 == 1
    }

    /// The value is not topical.
    pub fn nt(&self) -> (r: bool)
        ensures
            r == self.nt_spec(),
    {
        self.raw / 64 % 2 == 1
    }

    /// The value was substituted.
    pub open spec fn sb_spec(self) -> bool {
        self.raw / 32 % 2 == 1
    }

    /// The value was substituted.
    pub fn sb(&self) -> (r: bool)
        ensures
            r == self.sb_spec(),
    {
        self.raw / 32 % 2 == 1
    }

    /// The value is blocked.
    pub open spec fn bl_spec(self) -> bool {
        self.raw / 16 % 2 == 1
    }

    /// The value is blocked.
    pub fn bl(&self) -> (r: bool)
        ensures
            r == self.bl_spec(),
    {
        self.raw / 16 % 2 == 1
    }

    /// The elapsed time is invalid.
    pub open spec fn ei_spec(self) -> bool {
        self.raw / 8 % 2 == 1
    }

    /// The elapsed time is invalid.
    pub fn ei(&self) -> (r: bool)
        ensures
            r == self.ei_spec(),
    {
        self.raw / 8 % 2 == 1
    }

    /// State of the event.
    pub open spec fn es_spec(self) -> u8 {
        self.raw / 2 % 4
    }

    /// State of the event.
    pub fn es(&self) -> (r: u8)
        ensures
            r == self.es_spec(),
    {
        self.raw / 2 % 4
    }

    pub fn new(invalid: bool, nt: bool, sb: bool, bl: bool, ei: bool, es: u8) -> (r: Self)
        requires
            es < 4,
        ensures
            r.raw == weight(invalid, 128) + weight(nt, 64) + weight(sb, 32) + weight(bl, 16) + weight(ei, 8) + es * 2,
            r.invalid_spec() == invalid,
            r.nt_spec() == nt,
            r.sb_spec() == sb,
            r.bl_spec() == bl,
            r.ei_spec() == ei,
            r.es_spec() == es,
    {
        let raw: u8 = weigh(invalid, 128) + weigh(nt, 64) + weigh(sb, 32) + weigh(bl, 16) + weigh(ei, 8) + es * 2;
        proof {
            assert(raw / 128 == weight(invalid, 1));
            assert(raw / 64 == weight(invalid, 2) + weight(nt, 1));
            assert(raw / 32 == weight(invalid, 4) + weight(nt, 2) + weight(sb, 1));
            assert(raw / 16 == weight(invalid, 8) + weight(nt, 4) + weight(sb, 2) + weight(bl, 1));
            assert(raw / 8 == weight(invalid, 16) + weight(nt, 8) + weight(sb, 4) + weight(bl, 2) + weight(ei, 1));
            assert(raw / 2 == weight(invalid, 64) + weight(nt, 32) + weight(sb, 16) + weight(bl, 8) + weight(ei, 4) + es);
        }
        ObjectSEP { raw }
    }
}

/// Quality descriptor for events of protection equipment.
#[derive(Debug, Clone, Copy, PartialEq, Eq, Structural)]
pub struct ObjectQDP {
    pub raw: u8,
}

impl ObjectQDP {
    /// The value is invalid.
    pub open spec fn invalid_spec(self) -> bool {
        self.raw >= 128
    }

    /// The value is invalid.
    pub fn invalid(&self) -> (r: bool)
        ensures
            r == self.invalid_spec(),
    {
        self.raw >= 128
    }

    /// The value is not topical.
    pub open spec fn nt_spec(self) -> bool {
        self.raw / 64 % 2 == 1
    }

    /// The value is not topical.
    pub fn nt(&self) -> (r: bool)
        ensures
            r == self.nt_spec(),
    {
        self.raw / 64 % 2 == 1
    }

    /// The value was substituted.
    pub open spec fn sb_spec(self) -> bool {
        self.raw / 32 % 2 == 1
    }

    /// The value was substituted.
    pub fn sb(&self) -> (r: bool)
        ensures
            r == self.sb_spec(),
    {
        self.raw / 32 % 2 == 1
    }

    /// The value is blocked.
    pub open spec fn bl_spec(self) -> bool {
        self.raw / 16 % 2 == 1
    }

    /// The value is blocked.
    pub fn bl(&self) -> (r: bool)
        ensures
            r == self.bl_spec(),
    {
        self.raw / 16 % 2 == 1
    }

    /// The elapsed time is invalid.
    pub open spec fn ei_spec(self) -> bool {
        self.raw / 8 % 2 == 1
    }

    /// The elapsed time is invalid.
    pub fn ei(&self) -> (r: bool)
        ensures
            r == self.ei_spec(),
    {
        self.raw / 8 % 2 == 1
    }

    /// Spare bits.
    pub open spec fn res_spec(self) -> u8 {
        self.raw % 8
    }

    /// Spare bits.
    pub fn res(&self) -> (r: u8)
        ensures
            r == self.res_spec(),
    {
        self.raw % 8
    }

    pub fn new(invalid: bool, nt: bool, sb: bool, bl: bool, ei: bool, res: u8) -> (r: Self)
        requires
            res < 8,
        ensures
            r.raw == weight(invalid, 128) + weight(nt, 64) + weight(sb, 32) + weight(bl, 16) + weight(ei, 8) + res,
            r.invalid_spec() == invalid,
            r.nt_spec() == nt,
            r.sb_spec() == sb,
            r.bl_spec() == bl,
            r.ei_spec() == ei,
            r.res_spec() == res,
    {
        let raw: u8 = weigh(invalid, 128) + weigh(nt, 64) + weigh(sb, 32) + weigh(bl, 16) + weigh(ei, 8) + res;
        proof {
            assert(raw / 128 == weight(invalid, 1));
            assert(raw / 64 == weight(invalid, 2) + weight(nt, 1));
            assert(raw / 32 == weight(invalid, 4) + weight(nt, 2) + weight(sb, 1));
            assert(raw / 16 == weight(invalid, 8) + weight(nt, 4) + weight(sb, 2) + weight(bl, 1));
            assert(raw / 8 == weight(invalid, 16) + weight(nt, 8) + weight(sb, 4) + weight(bl, 2) + weight(ei, 1));
        }
        ObjectQDP { raw }
    }
}

/// Start events of protection equipment.
#[derive(Debug, Clone, Copy, PartialEq, Eq, Structural)]
pub struct ObjectStartEP {
    pub raw: u8,
}

impl ObjectStartEP {
    /// Start of operation in reverse direction.
    pub open spec fn srd_spec(self) -> bool {
        self.raw >= 128
    }

    /// Start of operation in reverse direction.
    pub fn srd(&self) -> (r: bool)
        ensures
            r == self.srd_spec(),
    {
        self.raw >= 128
    }

    /// Start of operation by earth current.
    pub open spec fn sie_spec(self) -> bool {
        self.raw / 64 % 2 == 1
    }

    /// Start of operation by earth current.
    pub fn sie(&self) -> (r: bool)
        ensures
            r == self.sie_spec(),
    {
        self.raw / 64 % 2 == 1
    }

    /// Start of operation in phase L3.
    pub open spec fn sl3_spec(self) -> bool {
        self.raw / 32 % 2 == 1
    }

    /// Start of operation in phase L3.
    pub fn sl3(&self) -> (r: bool)
        ensures
            r == self.sl3_spec(),
    {
        self.raw / 32 % 2 == 1
    }

    /// Start of operation in phase L2.
    pub open spec fn sl2_spec(self) -> bool {
        self.raw / 16 % 2 == 1
    }

    /// Start of operation in phase L2.
    pub fn sl2(&self) -> (r: bool)
        ensures
            r == self.sl2_spec(),
    {
        self.raw / 16 % 2 == 1
    }

    /// Start of operation in phase L1.
    pub open spec fn sl1_spec(self) -> bool {
        self.raw / 8 % 2 == 1
    }

    /// Start of operation in phase L1.
    pub fn sl1(&self) -> (r: bool)
        ensures
            r == self.sl1_spec(),
    {
        self.raw / 8 % 2 == 1
    }

    /// General start of operation.
    pub open spec fn gs_spec(self) -> bool {
        self.raw / 4 % 2 == 1
    }

    /// General start of operation.
    pub fn gs(&self) -> (r: bool)
        ensures
            r == self.gs_spec(),
    {
        self.raw / 4 % 2 == 1
    }

    /// Spare bits.
    pub open spec fn res_spec(self) -> u8 {
        self.raw % 4
    }

    /// Spare bits.
    pub fn res(&self) -> (r: u8)
        ensures
            r == self.res_spec(),
    {
        self.raw % 4
    }

    pub fn new(srd: bool, sie: bool, sl3: bool, sl2: bool, sl1: bool, gs: bool, res: u8) -> (r: Self)
        requires
            res < 4,
        ensures
            r.raw == weight(srd, 128) + weight(sie, 64) + weight(sl3, 32) + weight(sl2, 16) + weight(sl1, 8) + weight(gs, 4) + res,
            r.srd_spec() == srd,
            r.sie_spec() == sie,
            r.sl3_spec() == sl3,
            r.sl2_spec() == sl2,
            r.sl1_spec() == sl1,
            r.gs_spec() == gs,
            r.res_spec() == res,
    {
        let raw: u8 = weigh(srd, 128) + weigh(sie, 64) + weigh(sl3, 32) + weigh(sl2, 16) + weigh(sl1, 8) + weigh(gs, 4) + res;
        proof {
            assert(raw / 128 == weight(srd, 1));
            assert(raw / 64 == weight(srd, 2) + weight(sie, 1));
            assert(raw / 32 == weight(srd, 4) + weight(sie, 2) + weight(sl3, 1));
            assert(raw / 16 == weight(srd, 8) + weight(sie, 4) + weight(sl3, 2) + weight(sl2, 1));
            assert(raw / 8 == weight(srd, 16) + weight(sie, 8) + weight(sl3, 4) + weight(sl2, 2) + weight(sl1, 1));
            assert(raw / 4 == weight(srd, 32) + weight(sie, 16) + weight(sl3, 8) + weight(sl2, 4) + weight(sl1, 2) + weight(gs, 1));
        }
        ObjectStartEP { raw }
    }
}

/// Output circuit information of protection equipment.
#[derive(Debug, Clone, Copy, PartialEq, Eq, Structural)]
pub struct ObjectOCI {
    pub raw: u8,
}

impl ObjectOCI {
    /// Command to the output circuit of phase L3.
    pub open spec fn cl3_spec(self) -> bool {
        self.raw >= 128
    }

    /// Command to the output circuit of phase L3.
    pub fn cl3(&self) -> (r: bool)
        ensures
            r == self.cl3_spec(),
    {
        self.raw >= 128
    }

    /// Command to the output circuit of phase L2.
    pub open spec fn cl2_spec(self) -> bool {
        self.raw / 64 % 2 == 1
    }

    /// Command to the output circuit of phase L2.
    pub fn cl2(&self) -> (r: bool)
        ensures
            r == self.cl2_spec(),
    {
        self.raw / 64 % 2 == 1
    }

    /// Command to the output circuit of phase L1.
    pub open spec fn cl1_spec(self) -> bool {
        self.raw / 32 % 2 == 1
    }

    /// Command to the output circuit of phase L1.
    pub fn cl1(&self) -> (r: bool)
        ensures
            r == self.cl1_spec(),
    {
        self.raw / 32 % 2 == 1
    }

    /// General command to the output circuit.
    pub open spec fn gc_spec(self) -> bool {
        self.raw / 16 % 2 == 1
    }

    /// General command to the output circuit.
    pub fn gc(&self) -> (r: bool)
        ensures
            r == self.gc_spec(),
    {
        self.raw / 16 % 2 == 1
    }

    /// Spare bits.
    pub open spec fn res_spec(self) -> u8 {
        self.raw % 16
    }

    /// Spare bits.
    pub fn res(&self) -> (r: u8)
        ensures
            r == self.res_spec(),
    {
        self.raw % 16
    }

    pub fn new(cl3: bool, cl2: bool, cl1: bool, gc: bool, res: u8) -> (r: Self)
        requires
            res < 16,
        ensures
            r.raw == weight(cl3, 128) + weight(cl2, 64) + weight(cl1, 32) + weight(gc, 16) + res,
            r.cl3_spec() == cl3,
            r.cl2_spec() == cl2,
            r.cl1_spec() == cl1,
            r.gc_spec() == gc,
            r.res_spec() == res,
    {
        let raw: u8 = weigh(cl3, 128) + weigh(cl2, 64) + weigh(cl1, 32) + weigh(gc, 16) + res;
        proof {
            assert(raw / 128 == weight(cl3, 1));
            assert(raw / 64 == weight(cl3, 2) + weight(cl2, 1));
            assert(raw / 32 == weight(cl3, 4) + weight(cl2, 2) + weight(cl1, 1));
            assert(raw / 16 == weight(cl3, 8) + weight(cl2, 4) + weight(cl1, 2) + weight(gc, 1));
        }
        ObjectOCI { raw }
    }
}

/// Single command.
#[derive(Debug, Clone, Copy, PartialEq, Eq, Structural)]
pub struct ObjectSCO {
    pub raw: u8,
}

impl ObjectSCO {
    /// Select (set) or execute.
    pub open spec fn se_spec(self) -> bool {
        self.raw >= 128
    }

    /// Select (set) or execute.
    pub fn se(&self) -> (r: bool)
        ensures
            r == self.se_spec(),
    {
        self.raw >= 128
    }

    /// Qualifier of the output.
    pub open spec fn qu_spec(self) -> u8 {
        self.raw / 4 % 32
    }

    /// Qualifier of the output.
    pub fn qu(&self) -> (r: u8)
        ensures
            r == self.qu_spec(),
    {
        self.raw / 4 % 32
    }

    /// Spare bits.
    pub open spec fn res_spec(self) -> u8 {
        self.raw / 2 % 2
    }

    /// Spare bits.
    pub fn res(&self) -> (r: u8)
        ensures
            r == self.res_spec(),
    {
        self.raw / 2 % 2
    }

    /// State to set.
    pub open spec fn scs_spec(self) -> bool {
        self.raw % 2 == 1
    }

    /// State to set.
    pub fn scs(&self) -> (r: bool)
        ensures
            r == self.scs_spec(),
    {
        self.raw % 2 == 1
    }

    pub fn new(se: bool, qu: u8, res: u8, scs: bool) -> (r: Self)
        requires
            qu < 32,
            res < 2,
        ensures
            r.raw == weight(se, 128) + qu * 4 + res * 2 + weight(scs, 1),
            r.se_spec() == se,
            r.qu_spec() == qu,
            r.res_spec() == res,
            r.scs_spec() == scs,
    {
        let raw: u8 = weigh(se, 128) + qu * 4 + res * 2 + weigh(scs, 1);
        proof {
            assert(raw / 128 == weight(se, 1));
            assert(raw / 4 == weight(se, 32) + qu);
            assert(raw / 2 == weight(se, 64) + qu * 2 + res);
        }
        ObjectSCO { raw }
    }
}

/// Double command.
#[derive(Debug, Clone, Copy, PartialEq, Eq, Structural)]
pub struct ObjectDCO {
    pub raw: u8,
}

impl ObjectDCO {
    /// Select (set) or execute.
    pub open spec fn se_spec(self) -> bool {
        self.raw >= 128
    }

    /// Select (set) or execute.
    pub fn se(&self) -> (r: bool)
        ensures
            r == self.se_spec(),
    {
        self.raw >= 128
    }

    /// Qualifier of the output.
    pub open spec fn qu_spec(self) -> u8 {
        self.raw / 4 % 32
    }

    /// Qualifier of the output.
    pub fn qu(&self) -> (r: u8)
        ensures
            r == self.qu_spec(),
    {
        self.raw / 4 % 32
    }

    /// State to set.
    pub open spec fn dcs_spec(self) -> u8 {
        self.raw % 4
    }

    /// State to set.
    pub fn dcs(&self) -> (r: u8)
        ensures
            r == self.dcs_spec(),
    {
        self.raw % 4
    }

    pub fn new(se: bool, qu: u8, dcs: u8) -> (r: Self)
        requires
            qu < 32,
            dcs < 4,
        ensures
            r.raw == weight(se, 128) + qu * 4 + dcs,
            r.se_spec() == se,
            r.qu_spec() == qu,
            r.dcs_spec() == dcs,
    {
        let raw: u8 = weigh(se, 128) + qu * 4 + dcs;
        proof {
            assert(raw / 128 == weight(se, 1));
            assert(raw / 4 == weight(se, 32) + qu);
        }
        ObjectDCO { raw }
    }
}

/// Regulating step command.
#[derive(Debug, Clone, Copy, PartialEq, Eq, Structural)]
pub struct ObjectRCO {
    pub raw: u8,
}

impl ObjectRCO {
    /// Select (set) or execute.
    pub open spec fn se_spec(self) -> bool {
        self.raw >= 128
    }

    /// Select (set) or execute.
    pub fn se(&self) -> (r: bool)
        ensures
            r == self.se_spec(),
    {
        self.raw >= 128
    }

    /// Qualifier of the output.
    pub open spec fn qu_spec(self) -> u8 {
        self.raw / 4 % 32
    }

    /// Qualifier of the output.
    pub fn qu(&self) -> (r: u8)
        ensures
            r == self.qu_spec(),
    {
        self.raw / 4 % 32
    }

    /// Step to take.
    pub open spec fn rcs_spec(self) -> u8 {
        self.raw % 4
    }

    /// Step to take.
    pub fn rcs(&self) -> (r: u8)
        ensures
            r == self.rcs_spec(),
    {
        self.raw % 4
    }

    pub fn new(se: bool, qu: u8, rcs: u8) -> (r: Self)
        requires
            qu < 32,
            rcs < 4,
        ensures
            r.raw == weight(se, 128) + qu * 4 + rcs,
            r.se_spec() == se,
            r.qu_spec() == qu,
            r.rcs_spec() == rcs,
    {
        let raw: u8 = weigh(se, 128) + qu * 4 + rcs;
        proof {
            assert(raw / 128 == weight(se, 1));
            assert(raw / 4 == weight(se, 32) + qu);
        }
        ObjectRCO { raw }
    }
}

/// Qualifier of command.
#[derive(Debug, Clone, Copy, PartialEq, Eq, Structural)]
pub struct ObjectQOC {
    pub raw: u8,
}

impl ObjectQOC {
    /// Select (set) or execute.
    pub open spec fn se_spec(self) -> u8 {
        self.raw / 128
    }

    /// Select (set) or execute.
    pub fn se(&self) -> (r: u8)
        ensures
            r == self.se_spec(),
    {
        self.raw / 128
    }

    /// Qualifier of the output.
    pub open spec fn qu_spec(self) -> u8 {
        self.raw / 4 % 32
    }

    /// Qualifier of the output.
    pub fn qu(&self) -> (r: u8)
        ensures
            r == self.qu_spec(),
    {
        self.raw / 4 % 32
    }

    /// Spare bits.
    pub open spec fn res_spec(self) -> u8 {
        self.raw % 4
    }

    /// Spare bits.
    pub fn res(&self) -> (r: u8)
        ensures
            r == self.res_spec(),
    {
        self.raw % 4
    }

    pub fn new(se: u8, qu: u8, res: u8) -> (r: Self)
        requires
            se < 2,
            qu < 32,
            res < 4,
        ensures
            r.raw == se * 128 + qu * 4 + res,
            r.se_spec() == se,
            r.qu_spec() == qu,
            r.res_spec() == res,
    {
        let raw: u8 = se * 128 + qu * 4 + res;
        proof {
            assert(raw / 128 == se);
            assert(raw / 4 == se * 32 + qu);
        }
        ObjectQOC { raw }
    }
}

/// Qualifier of set-point command.
#[derive(Debug, Clone, Copy, PartialEq, Eq, Structural)]
pub struct ObjectQOS {
    pub raw: u8,
}

impl ObjectQOS {
    /// Select (set) or execute.
    pub open spec fn se_spec(self) -> u8 {
        self.raw / 128
    }

    /// Select (set) or execute.
    pub fn se(&self) -> (r: u8)
        ensures
            r == self.se_spec(),
    {
        self.raw / 128
    }

    /// Qualifier of the set point.
    pub open spec fn ql_spec(self) -> u8 {
        self.raw % 128
    }

    /// Qualifier of the set point.
    pub fn ql(&self) -> (r: u8)
        ensures
            r == self.ql_spec(),
    {
        self.raw % 128
    }

    pub fn new(se: u8, ql: u8) -> (r: Self)
        requires
            se < 2,
            ql < 128,
        ensures
            r.raw == se * 128 + ql,
            r.se_spec() == se,
            r.ql_spec() == ql,
    {
        let raw: u8 = se * 128 + ql;
        proof {
            assert(raw / 128 == se);
        }
        ObjectQOS { raw }
    }
}

/// Cause of initialization.
#[derive(Debug, Clone, Copy, PartialEq, Eq, Structural)]
pub struct ObjectCOI {
    pub raw: u8,
}

impl ObjectCOI {
    /// What initialized the station.
    pub open spec fn cause_spec(self) -> u8 {
        self.raw / 2
    }

    /// What initialized the station.
    pub fn cause(&self) -> (r: u8)
        ensures
            r == self.cause_spec(),
    {
        self.raw / 2
    }

    /// Local parameters were changed.
    pub open spec fn flag_spec(self) -> u8 {
        self.raw % 2
    }

    /// Local parameters were changed.
    pub fn flag(&self) -> (r: u8)
        ensures
            r == self.flag_spec(),
    {
        self.raw % 2
    }

    pub fn new(cause: u8, flag: u8) -> (r: Self)
        requires
            cause < 128,
            flag < 2,
        ensures
            r.raw == cause * 2 + flag,
            r.cause_spec() == cause,
            r.flag_spec() == flag,
    {
        let raw: u8 = cause * 2 + flag;
        proof {
            assert(raw / 2 == cause);
        }
        ObjectCOI { raw }
    }
}

/// Binary counter reading.
#[derive(Debug, Clone, Copy, PartialEq, Eq, Structural)]
pub struct ObjectBCR {
    /// The reading is invalid.
    pub invalid: bool,
    /// The counter was adjusted since the last reading.
    pub ca: bool,
    /// The counter overflowed.
    pub cy: bool,
    /// Sequence number, of which five bits are sent.
    pub seq: u8,
    pub value: i32,
}

impl ObjectBCR {
    /// The byte behind the value on the wire.
    pub open spec fn flags_spec(self) -> u8 {
        (self.seq % 32 + weight(self.cy, 32) + weight(self.ca, 64) + weight(self.invalid, 128)) as u8
    }

    /// The reading with this value and this byte behind it.
    pub open spec fn of(value: i32, flags: u8) -> ObjectBCR {
        ObjectBCR {
            invalid: flags >= 128,
            ca: flags / 64 % 2 == 1,
            cy: flags / 32 % 2 == 1,
            seq: flags % 32,
            value,
        }
    }

    /// The byte behind the value on the wire.
    pub fn flags(&self) -> (r: u8)
        ensures
            r == self.flags_spec(),
    {
        self.seq % 32 + weigh(self.cy, 32) + weigh(self.ca, 64) + weigh(self.invalid, 128)
    }

    /// The reading with this value and this byte behind it.
    pub fn from_parts(value: i32, flags: u8) -> (r: Self)
        ensures
            r == ObjectBCR::of(value, flags),
    {
        ObjectBCR {
            invalid: flags >= 128,
            ca: flags / 64 % 2 == 1,
            cy: flags / 32 % 2 == 1,
            seq: flags % 32,
            value,
        }
    }
}

/// A counter reading whose sequence number fits five bits is read from what
/// it is written as.
pub proof fn counter_reading_is_read_back(b: ObjectBCR)
    requires
        b.seq < 32,
    ensures
        ObjectBCR::of(b.value, b.flags_spec()) == b,
{
}

} // verus!
