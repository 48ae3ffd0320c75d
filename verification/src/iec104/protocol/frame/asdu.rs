//! Application service data units (ASDU): identifier and raw information
//! objects.

use crate::text::{all_bracketed, bytes_text, decimal, decimal_text, text3};
use crate::wire::{
    buf_content, buf_extend, buf_freeze, buf_new, buf_put_u16_le, buf_put_u8, bytes_as_slice,
    bytes_content, bytes_slice, le16, le16_at, le_bytes, le_vec, lemma_le2,
};
use bytes::Bytes;
use vstd::prelude::*;

verus! {

/// Size of an ASDU at most.
pub const ASDU_SIZE_MAX: usize = 249;

/// The invalid common address.
pub const INVALID_COMMON_ADDR: u16 = 0;

/// Size of the data unit identifier.
pub const IDENTIFIER_SIZE: usize = 6;

/// The information object address is irrelevant.
pub const INFO_OBJ_ADDR_IRRELEVANT: u16 = 0;

pub type OriginAddr = u8;

pub type CommonAddr = u16;

/// Variable structure qualifier: number of objects, and whether their
/// addresses follow one another.
#[derive(Debug, Clone, Copy, PartialEq, Eq, Structural)]
pub struct VariableStruct {
    pub raw: u8,
}

impl VariableStruct {
    /// The byte on the wire.
    pub open spec fn raw_spec(self) -> u8 {
        self.raw
    }

    /// The objects share one address and follow one another.
    pub open spec fn is_sequence_spec(self) -> bool {
        self.raw_spec() >= 128
    }

    /// Number of objects.
    pub open spec fn number_spec(self) -> nat {
        (self.raw_spec() % 128) as nat
    }

    pub fn new(is_sequence: bool, number: u8) -> (r: Self)
        requires
            number < 128,
        ensures
            r.raw_spec() == number + if is_sequence {
                128int
            } else {
                0
            },
            r.is_sequence_spec() == is_sequence,
            r.number_spec() == number,
    {
        if is_sequence {
            VariableStruct { raw: number + 128 }
        } else {
            VariableStruct { raw: number }
        }
    }

    pub fn from_raw(raw: u8) -> (r: Self)
        ensures
            r.raw_spec() == raw,
    {
        VariableStruct { raw }
    }

    pub fn raw(&self) -> (r: u8)
        ensures
            r == self.raw_spec(),
    {
        self.raw
    }

    pub fn is_sequence(&self) -> (r: bool)
        ensures
            r == self.is_sequence_spec(),
    {
        self.raw >= 128
    }

    pub fn number(&self) -> (r: u8)
        ensures
            r == self.number_spec(),
            r < 128,
    {
        self.raw % 128
    }
}

/// Cause of transmission.
#[derive(Debug, Clone, Copy, PartialEq, Eq, Structural)]
pub enum Cause {
    Unused,
    Periodic,
    Background,
    Spontaneous,
    Initialized,
    Request,
    Activation,
    ActivationCon,
    Deactivation,
    DeactivationCon,
    ActivationTerm,
    ReturnInfoRemote,
    ReturnInfoLocal,
    FileTransfer,
    Authentication,
    SessionKey,
    UserRoleAndUpdateKey,
    Reserved1,
    Reserved2,
    Reserved3,
    InterrogatedByStation,
    InterrogatedByGroup1,
    InterrogatedByGroup2,
    InterrogatedByGroup3,
    InterrogatedByGroup4,
    InterrogatedByGroup5,
    InterrogatedByGroup6,
    InterrogatedByGroup7,
    InterrogatedByGroup8,
    InterrogatedByGroup9,
    InterrogatedByGroup10,
    InterrogatedByGroup11,
    InterrogatedByGroup12,
    InterrogatedByGroup13,
    InterrogatedByGroup14,
    InterrogatedByGroup15,
    InterrogatedByGroup16,
    RequestByGeneralCounter,
    RequestByGroup1Counter,
    RequestByGroup2Counter,
    RequestByGroup3Counter,
    RequestByGroup4Counter,
    Reserved4,
    Reserved5,
    UnknownTypeID,
    UnknownCOT,
    UnknownCA,
    UnknownIOA,
}

impl Cause {
    /// Number of a cause on the wire.
    pub open spec fn code_spec(self) -> u8 {
        match self {
            Cause::Unused => 0,
            Cause::Periodic => 1,
            Cause::Background => 2,
            Cause::Spontaneous => 3,
            Cause::Initialized => 4,
            Cause::Request => 5,
            Cause::Activation => 6,
            Cause::ActivationCon => 7,
            Cause::Deactivation => 8,
            Cause::DeactivationCon => 9,
            Cause::ActivationTerm => 10,
            Cause::ReturnInfoRemote => 11,
            Cause::ReturnInfoLocal => 12,
            Cause::FileTransfer => 13,
            Cause::Authentication => 14,
            Cause::SessionKey => 15,
            Cause::UserRoleAndUpdateKey => 16,
            Cause::Reserved1 => 17,
            Cause::Reserved2 => 18,
            Cause::Reserved3 => 19,
            Cause::InterrogatedByStation => 20,
            Cause::InterrogatedByGroup1 => 21,
            Cause::InterrogatedByGroup2 => 22,
            Cause::InterrogatedByGroup3 => 23,
            Cause::InterrogatedByGroup4 => 24,
            Cause::InterrogatedByGroup5 => 25,
            Cause::InterrogatedByGroup6 => 26,
            Cause::InterrogatedByGroup7 => 27,
            Cause::InterrogatedByGroup8 => 28,
            Cause::InterrogatedByGroup9 => 29,
            Cause::InterrogatedByGroup10 => 30,
            Cause::InterrogatedByGroup11 => 31,
            Cause::InterrogatedByGroup12 => 32,
            Cause::InterrogatedByGroup13 => 33,
            Cause::InterrogatedByGroup14 => 34,
            Cause::InterrogatedByGroup15 => 35,
            Cause::InterrogatedByGroup16 => 36,
            Cause::RequestByGeneralCounter => 37,
            Cause::RequestByGroup1Counter => 38,
            Cause::RequestByGroup2Counter => 39,
            Cause::RequestByGroup3Counter => 40,
            Cause::RequestByGroup4Counter => 41,
            Cause::Reserved4 => 42,
            Cause::Reserved5 => 43,
            Cause::UnknownTypeID => 44,
            Cause::UnknownCOT => 45,
            Cause::UnknownCA => 46,
            Cause::UnknownIOA => 47,
        }
    }

    /// The cause with this number.
    pub open spec fn of_code(code: u8) -> Option<Cause> {
        if code == 0 {
            Some(Cause::Unused)
        } else if code == 1 {
            Some(Cause::Periodic)
        } else if code == 2 {
            Some(Cause::Background)
        } else if code == 3 {
            Some(Cause::Spontaneous)
        } else if code == 4 {
            Some(Cause::Initialized)
        } else if code == 5 {
            Some(Cause::Request)
        } else if code == 6 {
            Some(Cause::Activation)
        } else if code == 7 {
            Some(Cause::ActivationCon)
        } else if code == 8 {
            Some(Cause::Deactivation)
        } else if code == 9 {
            Some(Cause::DeactivationCon)
        } else if code == 10 {
            Some(Cause::ActivationTerm)
        } else if code == 11 {
            Some(Cause::ReturnInfoRemote)
        } else if code == 12 {
            Some(Cause::ReturnInfoLocal)
        } else if code == 13 {
            Some(Cause::FileTransfer)
        } else if code == 14 {
            Some(Cause::Authentication)
        } else if code == 15 {
            Some(Cause::SessionKey)
        } else if code == 16 {
            Some(Cause::UserRoleAndUpdateKey)
        } else if code == 17 {
            Some(Cause::Reserved1)
        } else if code == 18 {
            Some(Cause::Reserved2)
        } else if code == 19 {
            Some(Cause::Reserved3)
        } else if code == 20 {
            Some(Cause::InterrogatedByStation)
        } else if code == 21 {
            Some(Cause::InterrogatedByGroup1)
        } else if code == 22 {
            Some(Cause::InterrogatedByGroup2)
        } else if code == 23 {
            Some(Cause::InterrogatedByGroup3)
        } else if code == 24 {
            Some(Cause::InterrogatedByGroup4)
        } else if code == 25 {
            Some(Cause::InterrogatedByGroup5)
        } else if code == 26 {
            Some(Cause::InterrogatedByGroup6)
        } else if code == 27 {
            Some(Cause::InterrogatedByGroup7)
        } else if code == 28 {
            Some(Cause::InterrogatedByGroup8)
        } else if code == 29 {
            Some(Cause::InterrogatedByGroup9)
        } else if code == 30 {
            Some(Cause::InterrogatedByGroup10)
        } else if code == 31 {
            Some(Cause::InterrogatedByGroup11)
        } else if code == 32 {
            Some(Cause::InterrogatedByGroup12)
        } else if code == 33 {
            Some(Cause::InterrogatedByGroup13)
        } else if code == 34 {
            Some(Cause::InterrogatedByGroup14)
        } else if code == 35 {
            Some(Cause::InterrogatedByGroup15)
        } else if code == 36 {
            Some(Cause::InterrogatedByGroup16)
        } else if code == 37 {
            Some(Cause::RequestByGeneralCounter)
        } else if code == 38 {
            Some(Cause::RequestByGroup1Counter)
        } else if code == 39 {
            Some(Cause::RequestByGroup2Counter)
        } else if code == 40 {
            Some(Cause::RequestByGroup3Counter)
        } else if code == 41 {
            Some(Cause::RequestByGroup4Counter)
        } else if code == 42 {
            Some(Cause::Reserved4)
        } else if code == 43 {
            Some(Cause::Reserved5)
        } else if code == 44 {
            Some(Cause::UnknownTypeID)
        } else if code == 45 {
            Some(Cause::UnknownCOT)
        } else if code == 46 {
            Some(Cause::UnknownCA)
        } else if code == 47 {
            Some(Cause::UnknownIOA)
        } else {
            None
        }
    }

    /// Number of a cause on the wire.
    pub fn code(&self) -> (r: u8)
        ensures
            r == self.code_spec(),
    {
        match self {
            Cause::Unused => 0,
            Cause::Periodic => 1,
            Cause::Background => 2,
            Cause::Spontaneous => 3,
            Cause::Initialized => 4,
            Cause::Request => 5,
            Cause::Activation => 6,
            Cause::ActivationCon => 7,
            Cause::Deactivation => 8,
            Cause::DeactivationCon => 9,
            Cause::ActivationTerm => 10,
            Cause::ReturnInfoRemote => 11,
            Cause::ReturnInfoLocal => 12,
            Cause::FileTransfer => 13,
            Cause::Authentication => 14,
            Cause::SessionKey => 15,
            Cause::UserRoleAndUpdateKey => 16,
            Cause::Reserved1 => 17,
            Cause::Reserved2 => 18,
            Cause::Reserved3 => 19,
            Cause::InterrogatedByStation => 20,
            Cause::InterrogatedByGroup1 => 21,
            Cause::InterrogatedByGroup2 => 22,
            Cause::InterrogatedByGroup3 => 23,
            Cause::InterrogatedByGroup4 => 24,
            Cause::InterrogatedByGroup5 => 25,
            Cause::InterrogatedByGroup6 => 26,
            Cause::InterrogatedByGroup7 => 27,
            Cause::InterrogatedByGroup8 => 28,
            Cause::InterrogatedByGroup9 => 29,
            Cause::InterrogatedByGroup10 => 30,
            Cause::InterrogatedByGroup11 => 31,
            Cause::InterrogatedByGroup12 => 32,
            Cause::InterrogatedByGroup13 => 33,
            Cause::InterrogatedByGroup14 => 34,
            Cause::InterrogatedByGroup15 => 35,
            Cause::InterrogatedByGroup16 => 36,
            Cause::RequestByGeneralCounter => 37,
            Cause::RequestByGroup1Counter => 38,
            Cause::RequestByGroup2Counter => 39,
            Cause::RequestByGroup3Counter => 40,
            Cause::RequestByGroup4Counter => 41,
            Cause::Reserved4 => 42,
            Cause::Reserved5 => 43,
            Cause::UnknownTypeID => 44,
            Cause::UnknownCOT => 45,
            Cause::UnknownCA => 46,
            Cause::UnknownIOA => 47,
        }
    }

    /// The cause with this number.
    pub fn from_code(code: u8) -> (r: Option<Cause>)
        ensures
            r == Cause::of_code(code),
    {
        match code {
            0 => Some(Cause::Unused),
            1 => Some(Cause::Periodic),
            2 => Some(Cause::Background),
            3 => Some(Cause::Spontaneous),
            4 => Some(Cause::Initialized),
            5 => Some(Cause::Request),
            6 => Some(Cause::Activation),
            7 => Some(Cause::ActivationCon),
            8 => Some(Cause::Deactivation),
            9 => Some(Cause::DeactivationCon),
            10 => Some(Cause::ActivationTerm),
            11 => Some(Cause::ReturnInfoRemote),
            12 => Some(Cause::ReturnInfoLocal),
            13 => Some(Cause::FileTransfer),
            14 => Some(Cause::Authentication),
            15 => Some(Cause::SessionKey),
            16 => Some(Cause::UserRoleAndUpdateKey),
            17 => Some(Cause::Reserved1),
            18 => Some(Cause::Reserved2),
            19 => Some(Cause::Reserved3),
            20 => Some(Cause::InterrogatedByStation),
            21 => Some(Cause::InterrogatedByGroup1),
            22 => Some(Cause::InterrogatedByGroup2),
            23 => Some(Cause::InterrogatedByGroup3),
            24 => Some(Cause::InterrogatedByGroup4),
            25 => Some(Cause::InterrogatedByGroup5),
            26 => Some(Cause::InterrogatedByGroup6),
            27 => Some(Cause::InterrogatedByGroup7),
            28 => Some(Cause::InterrogatedByGroup8),
            29 => Some(Cause::InterrogatedByGroup9),
            30 => Some(Cause::InterrogatedByGroup10),
            31 => Some(Cause::InterrogatedByGroup11),
            32 => Some(Cause::InterrogatedByGroup12),
            33 => Some(Cause::InterrogatedByGroup13),
            34 => Some(Cause::InterrogatedByGroup14),
            35 => Some(Cause::InterrogatedByGroup15),
            36 => Some(Cause::InterrogatedByGroup16),
            37 => Some(Cause::RequestByGeneralCounter),
            38 => Some(Cause::RequestByGroup1Counter),
            39 => Some(Cause::RequestByGroup2Counter),
            40 => Some(Cause::RequestByGroup3Counter),
            41 => Some(Cause::RequestByGroup4Counter),
            42 => Some(Cause::Reserved4),
            43 => Some(Cause::Reserved5),
            44 => Some(Cause::UnknownTypeID),
            45 => Some(Cause::UnknownCOT),
            46 => Some(Cause::UnknownCA),
            47 => Some(Cause::UnknownIOA),
            _ => None,
        }
    }

    /// Name of a cause.
    pub open spec fn name_spec(self) -> Seq<char> {
        match self {
            Cause::Unused => "Unused"@,
            Cause::Periodic => "Periodic"@,
            Cause::Background => "Background"@,
            Cause::Spontaneous => "Spontaneous"@,
            Cause::Initialized => "Initialized"@,
            Cause::Request => "Request"@,
            Cause::Activation => "Activation"@,
            Cause::ActivationCon => "ActivationCon"@,
            Cause::Deactivation => "Deactivation"@,
            Cause::DeactivationCon => "DeactivationCon"@,
            Cause::ActivationTerm => "ActivationTerm"@,
            Cause::ReturnInfoRemote => "ReturnInfoRemote"@,
            Cause::ReturnInfoLocal => "ReturnInfoLocal"@,
            Cause::FileTransfer => "FileTransfer"@,
            Cause::Authentication => "Authentication"@,
            Cause::SessionKey => "SessionKey"@,
            Cause::UserRoleAndUpdateKey => "UserRoleAndUpdateKey"@,
            Cause::Reserved1 => "Reserved1"@,
            Cause::Reserved2 => "Reserved2"@,
            Cause::Reserved3 => "Reserved3"@,
            Cause::InterrogatedByStation => "InterrogatedByStation"@,
            Cause::InterrogatedByGroup1 => "InterrogatedByGroup1"@,
            Cause::InterrogatedByGroup2 => "InterrogatedByGroup2"@,
            Cause::InterrogatedByGroup3 => "InterrogatedByGroup3"@,
            Cause::InterrogatedByGroup4 => "InterrogatedByGroup4"@,
            Cause::InterrogatedByGroup5 => "InterrogatedByGroup5"@,
            Cause::InterrogatedByGroup6 => "InterrogatedByGroup6"@,
            Cause::InterrogatedByGroup7 => "InterrogatedByGroup7"@,
            Cause::InterrogatedByGroup8 => "InterrogatedByGroup8"@,
            Cause::InterrogatedByGroup9 => "InterrogatedByGroup9"@,
            Cause::InterrogatedByGroup10 => "InterrogatedByGroup10"@,
            Cause::InterrogatedByGroup11 => "InterrogatedByGroup11"@,
            Cause::InterrogatedByGroup12 => "InterrogatedByGroup12"@,
            Cause::InterrogatedByGroup13 => "InterrogatedByGroup13"@,
            Cause::InterrogatedByGroup14 => "InterrogatedByGroup14"@,
            Cause::InterrogatedByGroup15 => "InterrogatedByGroup15"@,
            Cause::InterrogatedByGroup16 => "InterrogatedByGroup16"@,
            Cause::RequestByGeneralCounter => "RequestByGeneralCounter"@,
            Cause::RequestByGroup1Counter => "RequestByGroup1Counter"@,
            Cause::RequestByGroup2Counter => "RequestByGroup2Counter"@,
            Cause::RequestByGroup3Counter => "RequestByGroup3Counter"@,
            Cause::RequestByGroup4Counter => "RequestByGroup4Counter"@,
            Cause::Reserved4 => "Reserved4"@,
            Cause::Reserved5 => "Reserved5"@,
            Cause::UnknownTypeID => "UnknownTypeID"@,
            Cause::UnknownCOT => "UnknownCOT"@,
            Cause::UnknownCA => "UnknownCA"@,
            Cause::UnknownIOA => "UnknownIOA"@,
        }
    }

    /// Name of a cause.
    pub fn name(&self) -> (r: &'static str)
        ensures
            r@ == self.name_spec(),
    {
        match self {
            Cause::Unused => "Unused",
            Cause::Periodic => "Periodic",
            Cause::Background => "Background",
            Cause::Spontaneous => "Spontaneous",
            Cause::Initialized => "Initialized",
            Cause::Request => "Request",
            Cause::Activation => "Activation",
            Cause::ActivationCon => "ActivationCon",
            Cause::Deactivation => "Deactivation",
            Cause::DeactivationCon => "DeactivationCon",
            Cause::ActivationTerm => "ActivationTerm",
            Cause::ReturnInfoRemote => "ReturnInfoRemote",
            Cause::ReturnInfoLocal => "ReturnInfoLocal",
            Cause::FileTransfer => "FileTransfer",
            Cause::Authentication => "Authentication",
            Cause::SessionKey => "SessionKey",
            Cause::UserRoleAndUpdateKey => "UserRoleAndUpdateKey",
            Cause::Reserved1 => "Reserved1",
            Cause::Reserved2 => "Reserved2",
            Cause::Reserved3 => "Reserved3",
            Cause::InterrogatedByStation => "InterrogatedByStation",
            Cause::InterrogatedByGroup1 => "InterrogatedByGroup1",
            Cause::InterrogatedByGroup2 => "InterrogatedByGroup2",
            Cause::InterrogatedByGroup3 => "InterrogatedByGroup3",
            Cause::InterrogatedByGroup4 => "InterrogatedByGroup4",
            Cause::InterrogatedByGroup5 => "InterrogatedByGroup5",
            Cause::InterrogatedByGroup6 => "InterrogatedByGroup6",
            Cause::InterrogatedByGroup7 => "InterrogatedByGroup7",
            Cause::InterrogatedByGroup8 => "InterrogatedByGroup8",
            Cause::InterrogatedByGroup9 => "InterrogatedByGroup9",
            Cause::InterrogatedByGroup10 => "InterrogatedByGroup10",
            Cause::InterrogatedByGroup11 => "InterrogatedByGroup11",
            Cause::InterrogatedByGroup12 => "InterrogatedByGroup12",
            Cause::InterrogatedByGroup13 => "InterrogatedByGroup13",
            Cause::InterrogatedByGroup14 => "InterrogatedByGroup14",
            Cause::InterrogatedByGroup15 => "InterrogatedByGroup15",
            Cause::InterrogatedByGroup16 => "InterrogatedByGroup16",
            Cause::RequestByGeneralCounter => "RequestByGeneralCounter",
            Cause::RequestByGroup1Counter => "RequestByGroup1Counter",
            Cause::RequestByGroup2Counter => "RequestByGroup2Counter",
            Cause::RequestByGroup3Counter => "RequestByGroup3Counter",
            Cause::RequestByGroup4Counter => "RequestByGroup4Counter",
            Cause::Reserved4 => "Reserved4",
            Cause::Reserved5 => "Reserved5",
            Cause::UnknownTypeID => "UnknownTypeID",
            Cause::UnknownCOT => "UnknownCOT",
            Cause::UnknownCA => "UnknownCA",
            Cause::UnknownIOA => "UnknownIOA",
        }
    }
}

/// Cause of transmission with the test and confirmation flags.
#[derive(Debug, Clone, Copy, PartialEq, Eq, Structural)]
pub struct CauseOfTransmission {
    pub test: bool,
    pub positive: bool,
    pub cause: Cause,
}

impl CauseOfTransmission {
    /// The byte on the wire.
    pub open spec fn raw_spec(self) -> u8 {
        (self.cause.code_spec() + (if self.test {
            128int
        } else {
            0
        }) + (if self.positive {
            64int
        } else {
            0
        })) as u8
    }

    /// The cause that a byte stands for, where its number is one.
    pub open spec fn of_raw(raw: u8) -> Option<CauseOfTransmission> {
        match Cause::of_code(raw % 64) {
            Some(cause) => Some(
                CauseOfTransmission { test: raw >= 128, positive: raw / 64 % 2 == 1, cause },
            ),
            None => None,
        }
    }

    pub fn new(test: bool, positive: bool, cause: Cause) -> (r: Self)
        ensures
            r == (CauseOfTransmission { test, positive, cause }),
    {
        CauseOfTransmission { test, positive, cause }
    }

    /// The cause that a byte stands for.
    pub fn try_from(raw: u8) -> (r: Result<Self, ()>)
        ensures
            match CauseOfTransmission::of_raw(raw) {
                Some(c) => r == Ok::<CauseOfTransmission, ()>(c),
                None => r is Err,
            },
    {
        match Cause::from_code(raw % 64) {
            Some(cause) => Ok(
                CauseOfTransmission { test: raw >= 128, positive: raw / 64 % 2 == 1, cause },
            ),
            None => Err(()),
        }
    }

    pub fn raw(&self) -> (r: u8)
        ensures
            r == self.raw_spec(),
    {
        let code: u8 = self.cause.code();
        assert(code < 64);
        code + (if self.test {
            128
        } else {
            0
        }) + (if self.positive {
            64
        } else {
            0
        })
    }
}

/// Type identification of an ASDU.
#[allow(non_camel_case_types)]
#[derive(Debug, Clone, Copy, PartialEq, Eq, Structural)]
pub enum TypeID {
    M_SP_NA_1,
    M_SP_TA_1,
    M_DP_NA_1,
    M_DP_TA_1,
    M_ST_NA_1,
    M_ST_TA_1,
    M_BO_NA_1,
    M_BO_TA_1,
    M_ME_NA_1,
    M_ME_TA_1,
    M_ME_NB_1,
    M_ME_TB_1,
    M_ME_NC_1,
    M_ME_TC_1,
    M_IT_NA_1,
    M_IT_TA_1,
    M_EP_TA_1,
    M_EP_TB_1,
    M_EP_TC_1,
    M_PS_NA_1,
    M_ME_ND_1,
    M_SP_TB_1,
    M_DP_TB_1,
    M_ST_TB_1,
    M_BO_TB_1,
    M_ME_TD_1,
    M_ME_TE_1,
    M_ME_TF_1,
    M_IT_TB_1,
    M_EP_TD_1,
    M_EP_TE_1,
    M_EP_TF_1,
    S_IT_TC_1,
    C_SC_NA_1,
    C_DC_NA_1,
    C_RC_NA_1,
    C_SE_NA_1,
    C_SE_NB_1,
    C_SE_NC_1,
    C_BO_NA_1,
    C_SC_TA_1,
    C_DC_TA_1,
    C_RC_TA_1,
    C_SE_TA_1,
    C_SE_TB_1,
    C_SE_TC_1,
    C_BO_TA_1,
    M_EI_NA_1,
    S_CH_NA_1,
    S_RP_NA_1,
    S_AR_NA_1,
    S_KR_NA_1,
    S_KS_NA_1,
    S_KC_NA_1,
    S_ER_NA_1,
    S_US_NA_1,
    S_UQ_NA_1,
    S_UR_NA_1,
    S_UK_NA_1,
    S_UA_NA_1,
    S_UC_NA_1,
    C_IC_NA_1,
    C_CI_NA_1,
    C_RD_NA_1,
    C_CS_NA_1,
    C_TS_NA_1,
    C_RP_NA_1,
    C_CD_NA_1,
    C_TS_TA_1,
    P_ME_NA_1,
    P_ME_NB_1,
    P_ME_NC_1,
    P_AC_NA_1,
    F_FR_NA_1,
    F_SR_NA_1,
    F_SC_NA_1,
    F_LS_NA_1,
    F_AF_NA_1,
    F_SG_NA_1,
    F_DR_TA_1,
    F_SC_NB_1,
}

impl TypeID {
    /// Number of a type on the wire.
    pub open spec fn code_spec(self) -> u8 {
        match self {
            TypeID::M_SP_NA_1 => 1,
            TypeID::M_SP_TA_1 => 2,
            TypeID::M_DP_NA_1 => 3,
            TypeID::M_DP_TA_1 => 4,
            TypeID::M_ST_NA_1 => 5,
            TypeID::M_ST_TA_1 => 6,
            TypeID::M_BO_NA_1 => 7,
            TypeID::M_BO_TA_1 => 8,
            TypeID::M_ME_NA_1 => 9,
            TypeID::M_ME_TA_1 => 10,
            TypeID::M_ME_NB_1 => 11,
            TypeID::M_ME_TB_1 => 12,
            TypeID::M_ME_NC_1 => 13,
            TypeID::M_ME_TC_1 => 14,
            TypeID::M_IT_NA_1 => 15,
            TypeID::M_IT_TA_1 => 16,
            TypeID::M_EP_TA_1 => 17,
            TypeID::M_EP_TB_1 => 18,
            TypeID::M_EP_TC_1 => 19,
            TypeID::M_PS_NA_1 => 20,
            TypeID::M_ME_ND_1 => 21,
            TypeID::M_SP_TB_1 => 30,
            TypeID::M_DP_TB_1 => 31,
            TypeID::M_ST_TB_1 => 32,
            TypeID::M_BO_TB_1 => 33,
            TypeID::M_ME_TD_1 => 34,
            TypeID::M_ME_TE_1 => 35,
            TypeID::M_ME_TF_1 => 36,
            TypeID::M_IT_TB_1 => 37,
            TypeID::M_EP_TD_1 => 38,
            TypeID::M_EP_TE_1 => 39,
            TypeID::M_EP_TF_1 => 40,
            TypeID::S_IT_TC_1 => 41,
            TypeID::C_SC_NA_1 => 45,
            TypeID::C_DC_NA_1 => 46,
            TypeID::C_RC_NA_1 => 47,
            TypeID::C_SE_NA_1 => 48,
            TypeID::C_SE_NB_1 => 49,
            TypeID::C_SE_NC_1 => 50,
            TypeID::C_BO_NA_1 => 51,
            TypeID::C_SC_TA_1 => 58,
            TypeID::C_DC_TA_1 => 59,
            TypeID::C_RC_TA_1 => 60,
            TypeID::C_SE_TA_1 => 61,
            TypeID::C_SE_TB_1 => 62,
            TypeID::C_SE_TC_1 => 63,
            TypeID::C_BO_TA_1 => 64,
            TypeID::M_EI_NA_1 => 70,
            TypeID::S_CH_NA_1 => 81,
            TypeID::S_RP_NA_1 => 82,
            TypeID::S_AR_NA_1 => 83,
            TypeID::S_KR_NA_1 => 84,
            TypeID::S_KS_NA_1 => 85,
            TypeID::S_KC_NA_1 => 86,
            TypeID::S_ER_NA_1 => 87,
            TypeID::S_US_NA_1 => 90,
            TypeID::S_UQ_NA_1 => 91,
            TypeID::S_UR_NA_1 => 92,
            TypeID::S_UK_NA_1 => 93,
            TypeID::S_UA_NA_1 => 94,
            TypeID::S_UC_NA_1 => 95,
            TypeID::C_IC_NA_1 => 100,
            TypeID::C_CI_NA_1 => 101,
            TypeID::C_RD_NA_1 => 102,
            TypeID::C_CS_NA_1 => 103,
            TypeID::C_TS_NA_1 => 104,
            TypeID::C_RP_NA_1 => 105,
            TypeID::C_CD_NA_1 => 106,
            TypeID::C_TS_TA_1 => 107,
            TypeID::P_ME_NA_1 => 110,
            TypeID::P_ME_NB_1 => 111,
            TypeID::P_ME_NC_1 => 112,
            TypeID::P_AC_NA_1 => 113,
            TypeID::F_FR_NA_1 => 120,
            TypeID::F_SR_NA_1 => 121,
            TypeID::F_SC_NA_1 => 122,
            TypeID::F_LS_NA_1 => 123,
            TypeID::F_AF_NA_1 => 124,
            TypeID::F_SG_NA_1 => 125,
            TypeID::F_DR_TA_1 => 126,
            TypeID::F_SC_NB_1 => 127,
        }
    }

    /// Number of a type on the wire.
    pub fn code(&self) -> (r: u8)
        ensures
            r == self.code_spec(),
    {
        match self {
            TypeID::M_SP_NA_1 => 1,
            TypeID::M_SP_TA_1 => 2,
            TypeID::M_DP_NA_1 => 3,
            TypeID::M_DP_TA_1 => 4,
            TypeID::M_ST_NA_1 => 5,
            TypeID::M_ST_TA_1 => 6,
            TypeID::M_BO_NA_1 => 7,
            TypeID::M_BO_TA_1 => 8,
            TypeID::M_ME_NA_1 => 9,
            TypeID::M_ME_TA_1 => 10,
            TypeID::M_ME_NB_1 => 11,
            TypeID::M_ME_TB_1 => 12,
            TypeID::M_ME_NC_1 => 13,
            TypeID::M_ME_TC_1 => 14,
            TypeID::M_IT_NA_1 => 15,
            TypeID::M_IT_TA_1 => 16,
            TypeID::M_EP_TA_1 => 17,
            TypeID::M_EP_TB_1 => 18,
            TypeID::M_EP_TC_1 => 19,
            TypeID::M_PS_NA_1 => 20,
            TypeID::M_ME_ND_1 => 21,
            TypeID::M_SP_TB_1 => 30,
            TypeID::M_DP_TB_1 => 31,
            TypeID::M_ST_TB_1 => 32,
            TypeID::M_BO_TB_1 => 33,
            TypeID::M_ME_TD_1 => 34,
            TypeID::M_ME_TE_1 => 35,
            TypeID::M_ME_TF_1 => 36,
            TypeID::M_IT_TB_1 => 37,
            TypeID::M_EP_TD_1 => 38,
            TypeID::M_EP_TE_1 => 39,
            TypeID::M_EP_TF_1 => 40,
            TypeID::S_IT_TC_1 => 41,
            TypeID::C_SC_NA_1 => 45,
            TypeID::C_DC_NA_1 => 46,
            TypeID::C_RC_NA_1 => 47,
            TypeID::C_SE_NA_1 => 48,
            TypeID::C_SE_NB_1 => 49,
            TypeID::C_SE_NC_1 => 50,
            TypeID::C_BO_NA_1 => 51,
            TypeID::C_SC_TA_1 => 58,
            TypeID::C_DC_TA_1 => 59,
            TypeID::C_RC_TA_1 => 60,
            TypeID::C_SE_TA_1 => 61,
            TypeID::C_SE_TB_1 => 62,
            TypeID::C_SE_TC_1 => 63,
            TypeID::C_BO_TA_1 => 64,
            TypeID::M_EI_NA_1 => 70,
            TypeID::S_CH_NA_1 => 81,
            TypeID::S_RP_NA_1 => 82,
            TypeID::S_AR_NA_1 => 83,
            TypeID::S_KR_NA_1 => 84,
            TypeID::S_KS_NA_1 => 85,
            TypeID::S_KC_NA_1 => 86,
            TypeID::S_ER_NA_1 => 87,
            TypeID::S_US_NA_1 => 90,
            TypeID::S_UQ_NA_1 => 91,
            TypeID::S_UR_NA_1 => 92,
            TypeID::S_UK_NA_1 => 93,
            TypeID::S_UA_NA_1 => 94,
            TypeID::S_UC_NA_1 => 95,
            TypeID::C_IC_NA_1 => 100,
            TypeID::C_CI_NA_1 => 101,
            TypeID::C_RD_NA_1 => 102,
            TypeID::C_CS_NA_1 => 103,
            TypeID::C_TS_NA_1 => 104,
            TypeID::C_RP_NA_1 => 105,
            TypeID::C_CD_NA_1 => 106,
            TypeID::C_TS_TA_1 => 107,
            TypeID::P_ME_NA_1 => 110,
            TypeID::P_ME_NB_1 => 111,
            TypeID::P_ME_NC_1 => 112,
            TypeID::P_AC_NA_1 => 113,
            TypeID::F_FR_NA_1 => 120,
            TypeID::F_SR_NA_1 => 121,
            TypeID::F_SC_NA_1 => 122,
            TypeID::F_LS_NA_1 => 123,
            TypeID::F_AF_NA_1 => 124,
            TypeID::F_SG_NA_1 => 125,
            TypeID::F_DR_TA_1 => 126,
            TypeID::F_SC_NB_1 => 127,
        }
    }

    /// The type that a number is read as. The numbers 52 to 57, which no type
    /// has, are read as integrated totals with a short time tag.
    pub open spec fn of_code(code: u8) -> Option<TypeID> {
        if code == 1 {
            Some(TypeID::M_SP_NA_1)
        } else if code == 2 {
            Some(TypeID::M_SP_TA_1)
        } else if code == 3 {
            Some(TypeID::M_DP_NA_1)
        } else if code == 4 {
            Some(TypeID::M_DP_TA_1)
        } else if code == 5 {
            Some(TypeID::M_ST_NA_1)
        } else if code == 6 {
            Some(TypeID::M_ST_TA_1)
        } else if code == 7 {
            Some(TypeID::M_BO_NA_1)
        } else if code == 8 {
            Some(TypeID::M_BO_TA_1)
        } else if code == 9 {
            Some(TypeID::M_ME_NA_1)
        } else if code == 10 {
            Some(TypeID::M_ME_TA_1)
        } else if code == 11 {
            Some(TypeID::M_ME_NB_1)
        } else if code == 12 {
            Some(TypeID::M_ME_TB_1)
        } else if code == 13 {
            Some(TypeID::M_ME_NC_1)
        } else if code == 14 {
            Some(TypeID::M_ME_TC_1)
        } else if code == 15 {
            Some(TypeID::M_IT_NA_1)
        } else if code == 16 {
            Some(TypeID::M_IT_TA_1)
        } else if code == 17 {
            Some(TypeID::M_EP_TA_1)
        } else if code == 18 {
            Some(TypeID::M_EP_TB_1)
        } else if code == 19 {
            Some(TypeID::M_EP_TC_1)
        } else if code == 20 {
            Some(TypeID::M_PS_NA_1)
        } else if code == 21 {
            Some(TypeID::M_ME_ND_1)
        } else if code == 30 {
            Some(TypeID::M_SP_TB_1)
        } else if code == 31 {
            Some(TypeID::M_DP_TB_1)
        } else if code == 32 {
            Some(TypeID::M_ST_TB_1)
        } else if code == 33 {
            Some(TypeID::M_BO_TB_1)
        } else if code == 34 {
            Some(TypeID::M_ME_TD_1)
        } else if code == 35 {
            Some(TypeID::M_ME_TE_1)
        } else if code == 36 {
            Some(TypeID::M_ME_TF_1)
        } else if code == 37 {
            Some(TypeID::M_IT_TB_1)
        } else if code == 38 {
            Some(TypeID::M_EP_TD_1)
        } else if code == 39 {
            Some(TypeID::M_EP_TE_1)
        } else if code == 40 {
            Some(TypeID::M_EP_TF_1)
        } else if code == 41 {
            Some(TypeID::S_IT_TC_1)
        } else if code == 45 {
            Some(TypeID::C_SC_NA_1)
        } else if code == 46 {
            Some(TypeID::C_DC_NA_1)
        } else if code == 47 {
            Some(TypeID::C_RC_NA_1)
        } else if code == 48 {
            Some(TypeID::C_SE_NA_1)
        } else if code == 49 {
            Some(TypeID::C_SE_NB_1)
        } else if code == 50 {
            Some(TypeID::C_SE_NC_1)
        } else if code == 51 {
            Some(TypeID::C_BO_NA_1)
        } else if code == 58 {
            Some(TypeID::C_SC_TA_1)
        } else if code == 59 {
            Some(TypeID::C_DC_TA_1)
        } else if code == 60 {
            Some(TypeID::C_RC_TA_1)
        } else if code == 61 {
            Some(TypeID::C_SE_TA_1)
        } else if code == 62 {
            Some(TypeID::C_SE_TB_1)
        } else if code == 63 {
            Some(TypeID::C_SE_TC_1)
        } else if code == 64 {
            Some(TypeID::C_BO_TA_1)
        } else if code == 70 {
            Some(TypeID::M_EI_NA_1)
        } else if code == 81 {
            Some(TypeID::S_CH_NA_1)
        } else if code == 82 {
            Some(TypeID::S_RP_NA_1)
        } else if code == 83 {
            Some(TypeID::S_AR_NA_1)
        } else if code == 84 {
            Some(TypeID::S_KR_NA_1)
        } else if code == 85 {
            Some(TypeID::S_KS_NA_1)
        } else if code == 86 {
            Some(TypeID::S_KC_NA_1)
        } else if code == 87 {
            Some(TypeID::S_ER_NA_1)
        } else if code == 90 {
            Some(TypeID::S_US_NA_1)
        } else if code == 91 {
            Some(TypeID::S_UQ_NA_1)
        } else if code == 92 {
            Some(TypeID::S_UR_NA_1)
        } else if code == 93 {
            Some(TypeID::S_UK_NA_1)
        } else if code == 94 {
            Some(TypeID::S_UA_NA_1)
        } else if code == 95 {
            Some(TypeID::S_UC_NA_1)
        } else if code == 100 {
            Some(TypeID::C_IC_NA_1)
        } else if code == 101 {
            Some(TypeID::C_CI_NA_1)
        } else if code == 102 {
            Some(TypeID::C_RD_NA_1)
        } else if code == 103 {
            Some(TypeID::C_CS_NA_1)
        } else if code == 104 {
            Some(TypeID::C_TS_NA_1)
        } else if code == 105 {
            Some(TypeID::C_RP_NA_1)
        } else if code == 106 {
            Some(TypeID::C_CD_NA_1)
        } else if code == 107 {
            Some(TypeID::C_TS_TA_1)
        } else if code == 110 {
            Some(TypeID::P_ME_NA_1)
        } else if code == 111 {
            Some(TypeID::P_ME_NB_1)
        } else if code == 112 {
            Some(TypeID::P_ME_NC_1)
        } else if code == 113 {
            Some(TypeID::P_AC_NA_1)
        } else if code == 120 {
            Some(TypeID::F_FR_NA_1)
        } else if code == 121 {
            Some(TypeID::F_SR_NA_1)
        } else if code == 122 {
            Some(TypeID::F_SC_NA_1)
        } else if code == 123 {
            Some(TypeID::F_LS_NA_1)
        } else if code == 124 {
            Some(TypeID::F_AF_NA_1)
        } else if code == 125 {
            Some(TypeID::F_SG_NA_1)
        } else if code == 126 {
            Some(TypeID::F_DR_TA_1)
        } else if code == 127 {
            Some(TypeID::F_SC_NB_1)
        } else if 52 <= code <= 57 {
            Some(TypeID::M_IT_TA_1)
        } else {
            None
        }
    }

    /// The type that a number is read as.
    pub fn try_from(value: u8) -> (r: Result<TypeID, String>)
        ensures
            match TypeID::of_code(value) {
                Some(t) => r == Ok::<TypeID, String>(t),
                None => r matches Err(e) && e@ == "Unknown TypeId: "@ + decimal(value as nat),
            },
    {
        match value {
            1 => Ok(TypeID::M_SP_NA_1),
            2 => Ok(TypeID::M_SP_TA_1),
            3 => Ok(TypeID::M_DP_NA_1),
            4 => Ok(TypeID::M_DP_TA_1),
            5 => Ok(TypeID::M_ST_NA_1),
            6 => Ok(TypeID::M_ST_TA_1),
            7 => Ok(TypeID::M_BO_NA_1),
            8 => Ok(TypeID::M_BO_TA_1),
            9 => Ok(TypeID::M_ME_NA_1),
            10 => Ok(TypeID::M_ME_TA_1),
            11 => Ok(TypeID::M_ME_NB_1),
            12 => Ok(TypeID::M_ME_TB_1),
            13 => Ok(TypeID::M_ME_NC_1),
            14 => Ok(TypeID::M_ME_TC_1),
            15 => Ok(TypeID::M_IT_NA_1),
            16 => Ok(TypeID::M_IT_TA_1),
            17 => Ok(TypeID::M_EP_TA_1),
            18 => Ok(TypeID::M_EP_TB_1),
            19 => Ok(TypeID::M_EP_TC_1),
            20 => Ok(TypeID::M_PS_NA_1),
            21 => Ok(TypeID::M_ME_ND_1),
            30 => Ok(TypeID::M_SP_TB_1),
            31 => Ok(TypeID::M_DP_TB_1),
            32 => Ok(TypeID::M_ST_TB_1),
            33 => Ok(TypeID::M_BO_TB_1),
            34 => Ok(TypeID::M_ME_TD_1),
            35 => Ok(TypeID::M_ME_TE_1),
            36 => Ok(TypeID::M_ME_TF_1),
            37 => Ok(TypeID::M_IT_TB_1),
            38 => Ok(TypeID::M_EP_TD_1),
            39 => Ok(TypeID::M_EP_TE_1),
            40 => Ok(TypeID::M_EP_TF_1),
            41 => Ok(TypeID::S_IT_TC_1),
            45 => Ok(TypeID::C_SC_NA_1),
            46 => Ok(TypeID::C_DC_NA_1),
            47 => Ok(TypeID::C_RC_NA_1),
            48 => Ok(TypeID::C_SE_NA_1),
            49 => Ok(TypeID::C_SE_NB_1),
            50 => Ok(TypeID::C_SE_NC_1),
            51 => Ok(TypeID::C_BO_NA_1),
            52 => Ok(TypeID::M_IT_TA_1),
            53 => Ok(TypeID::M_IT_TA_1),
            54 => Ok(TypeID::M_IT_TA_1),
            55 => Ok(TypeID::M_IT_TA_1),
            56 => Ok(TypeID::M_IT_TA_1),
            57 => Ok(TypeID::M_IT_TA_1),
            58 => Ok(TypeID::C_SC_TA_1),
            59 => Ok(TypeID::C_DC_TA_1),
            60 => Ok(TypeID::C_RC_TA_1),
            61 => Ok(TypeID::C_SE_TA_1),
            62 => Ok(TypeID::C_SE_TB_1),
            63 => Ok(TypeID::C_SE_TC_1),
            64 => Ok(TypeID::C_BO_TA_1),
            70 => Ok(TypeID::M_EI_NA_1),
            81 => Ok(TypeID::S_CH_NA_1),
            82 => Ok(TypeID::S_RP_NA_1),
            83 => Ok(TypeID::S_AR_NA_1),
            84 => Ok(TypeID::S_KR_NA_1),
            85 => Ok(TypeID::S_KS_NA_1),
            86 => Ok(TypeID::S_KC_NA_1),
            87 => Ok(TypeID::S_ER_NA_1),
            90 => Ok(TypeID::S_US_NA_1),
            91 => Ok(TypeID::S_UQ_NA_1),
            92 => Ok(TypeID::S_UR_NA_1),
            93 => Ok(TypeID::S_UK_NA_1),
            94 => Ok(TypeID::S_UA_NA_1),
            95 => Ok(TypeID::S_UC_NA_1),
            100 => Ok(TypeID::C_IC_NA_1),
            101 => Ok(TypeID::C_CI_NA_1),
            102 => Ok(TypeID::C_RD_NA_1),
            103 => Ok(TypeID::C_CS_NA_1),
            104 => Ok(TypeID::C_TS_NA_1),
            105 => Ok(TypeID::C_RP_NA_1),
            106 => Ok(TypeID::C_CD_NA_1),
            107 => Ok(TypeID::C_TS_TA_1),
            110 => Ok(TypeID::P_ME_NA_1),
            111 => Ok(TypeID::P_ME_NB_1),
            112 => Ok(TypeID::P_ME_NC_1),
            113 => Ok(TypeID::P_AC_NA_1),
            120 => Ok(TypeID::F_FR_NA_1),
            121 => Ok(TypeID::F_SR_NA_1),
            122 => Ok(TypeID::F_SC_NA_1),
            123 => Ok(TypeID::F_LS_NA_1),
            124 => Ok(TypeID::F_AF_NA_1),
            125 => Ok(TypeID::F_SG_NA_1),
            126 => Ok(TypeID::F_DR_TA_1),
            127 => Ok(TypeID::F_SC_NB_1),
            _ => {
                let n = decimal_text(value as u64);
                let e = text3("Unknown TypeId: ", n.as_str(), "");
                proof {
                    reveal_strlit("");
                    assert(e@ =~= "Unknown TypeId: "@ + decimal(value as nat));
                }
                Err(e)
            },
        }
    }

    /// Name of a type.
    pub open spec fn name_spec(self) -> Seq<char> {
        match self {
            TypeID::M_SP_NA_1 => "M_SP_NA_1"@,
            TypeID::M_SP_TA_1 => "M_SP_TA_1"@,
            TypeID::M_DP_NA_1 => "M_DP_NA_1"@,
            TypeID::M_DP_TA_1 => "M_DP_TA_1"@,
            TypeID::M_ST_NA_1 => "M_ST_NA_1"@,
            TypeID::M_ST_TA_1 => "M_ST_TA_1"@,
            TypeID::M_BO_NA_1 => "M_BO_NA_1"@,
            TypeID::M_BO_TA_1 => "M_BO_TA_1"@,
            TypeID::M_ME_NA_1 => "M_ME_NA_1"@,
            TypeID::M_ME_TA_1 => "M_ME_TA_1"@,
            TypeID::M_ME_NB_1 => "M_ME_NB_1"@,
            TypeID::M_ME_TB_1 => "M_ME_TB_1"@,
            TypeID::M_ME_NC_1 => "M_ME_NC_1"@,
            TypeID::M_ME_TC_1 => "M_ME_TC_1"@,
            TypeID::M_IT_NA_1 => "M_IT_NA_1"@,
            TypeID::M_IT_TA_1 => "M_IT_TA_1"@,
            TypeID::M_EP_TA_1 => "M_EP_TA_1"@,
            TypeID::M_EP_TB_1 => "M_EP_TB_1"@,
            TypeID::M_EP_TC_1 => "M_EP_TC_1"@,
            TypeID::M_PS_NA_1 => "M_PS_NA_1"@,
            TypeID::M_ME_ND_1 => "M_ME_ND_1"@,
            TypeID::M_SP_TB_1 => "M_SP_TB_1"@,
            TypeID::M_DP_TB_1 => "M_DP_TB_1"@,
            TypeID::M_ST_TB_1 => "M_ST_TB_1"@,
            TypeID::M_BO_TB_1 => "M_BO_TB_1"@,
            TypeID::M_ME_TD_1 => "M_ME_TD_1"@,
            TypeID::M_ME_TE_1 => "M_ME_TE_1"@,
            TypeID::M_ME_TF_1 => "M_ME_TF_1"@,
            TypeID::M_IT_TB_1 => "M_IT_TB_1"@,
            TypeID::M_EP_TD_1 => "M_EP_TD_1"@,
            TypeID::M_EP_TE_1 => "M_EP_TE_1"@,
            TypeID::M_EP_TF_1 => "M_EP_TF_1"@,
            TypeID::S_IT_TC_1 => "S_IT_TC_1"@,
            TypeID::C_SC_NA_1 => "C_SC_NA_1"@,
            TypeID::C_DC_NA_1 => "C_DC_NA_1"@,
            TypeID::C_RC_NA_1 => "C_RC_NA_1"@,
            TypeID::C_SE_NA_1 => "C_SE_NA_1"@,
            TypeID::C_SE_NB_1 => "C_SE_NB_1"@,
            TypeID::C_SE_NC_1 => "C_SE_NC_1"@,
            TypeID::C_BO_NA_1 => "C_BO_NA_1"@,
            TypeID::C_SC_TA_1 => "C_SC_TA_1"@,
            TypeID::C_DC_TA_1 => "C_DC_TA_1"@,
            TypeID::C_RC_TA_1 => "C_RC_TA_1"@,
            TypeID::C_SE_TA_1 => "C_SE_TA_1"@,
            TypeID::C_SE_TB_1 => "C_SE_TB_1"@,
            TypeID::C_SE_TC_1 => "C_SE_TC_1"@,
            TypeID::C_BO_TA_1 => "C_BO_TA_1"@,
            TypeID::M_EI_NA_1 => "M_EI_NA_1"@,
            TypeID::S_CH_NA_1 => "S_CH_NA_1"@,
            TypeID::S_RP_NA_1 => "S_RP_NA_1"@,
            TypeID::S_AR_NA_1 => "S_AR_NA_1"@,
            TypeID::S_KR_NA_1 => "S_KR_NA_1"@,
            TypeID::S_KS_NA_1 => "S_KS_NA_1"@,
            TypeID::S_KC_NA_1 => "S_KC_NA_1"@,
            TypeID::S_ER_NA_1 => "S_ER_NA_1"@,
            TypeID::S_US_NA_1 => "S_US_NA_1"@,
            TypeID::S_UQ_NA_1 => "S_UQ_NA_1"@,
            TypeID::S_UR_NA_1 => "S_UR_NA_1"@,
            TypeID::S_UK_NA_1 => "S_UK_NA_1"@,
            TypeID::S_UA_NA_1 => "S_UA_NA_1"@,
            TypeID::S_UC_NA_1 => "S_UC_NA_1"@,
            TypeID::C_IC_NA_1 => "C_IC_NA_1"@,
            TypeID::C_CI_NA_1 => "C_CI_NA_1"@,
            TypeID::C_RD_NA_1 => "C_RD_NA_1"@,
            TypeID::C_CS_NA_1 => "C_CS_NA_1"@,
            TypeID::C_TS_NA_1 => "C_TS_NA_1"@,
            TypeID::C_RP_NA_1 => "C_RP_NA_1"@,
            TypeID::C_CD_NA_1 => "C_CD_NA_1"@,
            TypeID::C_TS_TA_1 => "C_TS_TA_1"@,
            TypeID::P_ME_NA_1 => "P_ME_NA_1"@,
            TypeID::P_ME_NB_1 => "P_ME_NB_1"@,
            TypeID::P_ME_NC_1 => "P_ME_NC_1"@,
            TypeID::P_AC_NA_1 => "P_AC_NA_1"@,
            TypeID::F_FR_NA_1 => "F_FR_NA_1"@,
            TypeID::F_SR_NA_1 => "F_SR_NA_1"@,
            TypeID::F_SC_NA_1 => "F_SC_NA_1"@,
            TypeID::F_LS_NA_1 => "F_LS_NA_1"@,
            TypeID::F_AF_NA_1 => "F_AF_NA_1"@,
            TypeID::F_SG_NA_1 => "F_SG_NA_1"@,
            TypeID::F_DR_TA_1 => "F_DR_TA_1"@,
            TypeID::F_SC_NB_1 => "F_SC_NB_1"@,
        }
    }

    /// Name of a type.
    pub fn name(&self) -> (r: &'static str)
        ensures
            r@ == self.name_spec(),
    {
        match self {
            TypeID::M_SP_NA_1 => "M_SP_NA_1",
            TypeID::M_SP_TA_1 => "M_SP_TA_1",
            TypeID::M_DP_NA_1 => "M_DP_NA_1",
            TypeID::M_DP_TA_1 => "M_DP_TA_1",
            TypeID::M_ST_NA_1 => "M_ST_NA_1",
            TypeID::M_ST_TA_1 => "M_ST_TA_1",
            TypeID::M_BO_NA_1 => "M_BO_NA_1",
            TypeID::M_BO_TA_1 => "M_BO_TA_1",
            TypeID::M_ME_NA_1 => "M_ME_NA_1",
            TypeID::M_ME_TA_1 => "M_ME_TA_1",
            TypeID::M_ME_NB_1 => "M_ME_NB_1",
            TypeID::M_ME_TB_1 => "M_ME_TB_1",
            TypeID::M_ME_NC_1 => "M_ME_NC_1",
            TypeID::M_ME_TC_1 => "M_ME_TC_1",
            TypeID::M_IT_NA_1 => "M_IT_NA_1",
            TypeID::M_IT_TA_1 => "M_IT_TA_1",
            TypeID::M_EP_TA_1 => "M_EP_TA_1",
            TypeID::M_EP_TB_1 => "M_EP_TB_1",
            TypeID::M_EP_TC_1 => "M_EP_TC_1",
            TypeID::M_PS_NA_1 => "M_PS_NA_1",
            TypeID::M_ME_ND_1 => "M_ME_ND_1",
            TypeID::M_SP_TB_1 => "M_SP_TB_1",
            TypeID::M_DP_TB_1 => "M_DP_TB_1",
            TypeID::M_ST_TB_1 => "M_ST_TB_1",
            TypeID::M_BO_TB_1 => "M_BO_TB_1",
            TypeID::M_ME_TD_1 => "M_ME_TD_1",
            TypeID::M_ME_TE_1 => "M_ME_TE_1",
            TypeID::M_ME_TF_1 => "M_ME_TF_1",
            TypeID::M_IT_TB_1 => "M_IT_TB_1",
            TypeID::M_EP_TD_1 => "M_EP_TD_1",
            TypeID::M_EP_TE_1 => "M_EP_TE_1",
            TypeID::M_EP_TF_1 => "M_EP_TF_1",
            TypeID::S_IT_TC_1 => "S_IT_TC_1",
            TypeID::C_SC_NA_1 => "C_SC_NA_1",
            TypeID::C_DC_NA_1 => "C_DC_NA_1",
            TypeID::C_RC_NA_1 => "C_RC_NA_1",
            TypeID::C_SE_NA_1 => "C_SE_NA_1",
            TypeID::C_SE_NB_1 => "C_SE_NB_1",
            TypeID::C_SE_NC_1 => "C_SE_NC_1",
            TypeID::C_BO_NA_1 => "C_BO_NA_1",
            TypeID::C_SC_TA_1 => "C_SC_TA_1",
            TypeID::C_DC_TA_1 => "C_DC_TA_1",
            TypeID::C_RC_TA_1 => "C_RC_TA_1",
            TypeID::C_SE_TA_1 => "C_SE_TA_1",
            TypeID::C_SE_TB_1 => "C_SE_TB_1",
            TypeID::C_SE_TC_1 => "C_SE_TC_1",
            TypeID::C_BO_TA_1 => "C_BO_TA_1",
            TypeID::M_EI_NA_1 => "M_EI_NA_1",
            TypeID::S_CH_NA_1 => "S_CH_NA_1",
            TypeID::S_RP_NA_1 => "S_RP_NA_1",
            TypeID::S_AR_NA_1 => "S_AR_NA_1",
            TypeID::S_KR_NA_1 => "S_KR_NA_1",
            TypeID::S_KS_NA_1 => "S_KS_NA_1",
            TypeID::S_KC_NA_1 => "S_KC_NA_1",
            TypeID::S_ER_NA_1 => "S_ER_NA_1",
            TypeID::S_US_NA_1 => "S_US_NA_1",
            TypeID::S_UQ_NA_1 => "S_UQ_NA_1",
            TypeID::S_UR_NA_1 => "S_UR_NA_1",
            TypeID::S_UK_NA_1 => "S_UK_NA_1",
            TypeID::S_UA_NA_1 => "S_UA_NA_1",
            TypeID::S_UC_NA_1 => "S_UC_NA_1",
            TypeID::C_IC_NA_1 => "C_IC_NA_1",
            TypeID::C_CI_NA_1 => "C_CI_NA_1",
            TypeID::C_RD_NA_1 => "C_RD_NA_1",
            TypeID::C_CS_NA_1 => "C_CS_NA_1",
            TypeID::C_TS_NA_1 => "C_TS_NA_1",
            TypeID::C_RP_NA_1 => "C_RP_NA_1",
            TypeID::C_CD_NA_1 => "C_CD_NA_1",
            TypeID::C_TS_TA_1 => "C_TS_TA_1",
            TypeID::P_ME_NA_1 => "P_ME_NA_1",
            TypeID::P_ME_NB_1 => "P_ME_NB_1",
            TypeID::P_ME_NC_1 => "P_ME_NC_1",
            TypeID::P_AC_NA_1 => "P_AC_NA_1",
            TypeID::F_FR_NA_1 => "F_FR_NA_1",
            TypeID::F_SR_NA_1 => "F_SR_NA_1",
            TypeID::F_SC_NA_1 => "F_SC_NA_1",
            TypeID::F_LS_NA_1 => "F_LS_NA_1",
            TypeID::F_AF_NA_1 => "F_AF_NA_1",
            TypeID::F_SG_NA_1 => "F_SG_NA_1",
            TypeID::F_DR_TA_1 => "F_DR_TA_1",
            TypeID::F_SC_NB_1 => "F_SC_NB_1",
        }
    }

    /// Commands that carry a time tag.
    pub open spec fn needs_time_spec(self) -> bool {
        match self {
            TypeID::C_SC_TA_1
            | TypeID::C_DC_TA_1
            | TypeID::C_RC_TA_1
            | TypeID::C_BO_TA_1
            | TypeID::C_SE_TA_1
            | TypeID::C_SE_TB_1
            | TypeID::C_SE_TC_1 => true,
            _ => false,
        }
    }

    /// Commands that carry a time tag.
    pub fn needs_time(&self) -> (r: bool)
        ensures
            r == self.needs_time_spec(),
    {
        matches!(
            self,
            TypeID::C_SC_TA_1
            | TypeID::C_DC_TA_1
            | TypeID::C_RC_TA_1
            | TypeID::C_BO_TA_1
            | TypeID::C_SE_TA_1
            | TypeID::C_SE_TB_1
            | TypeID::C_SE_TC_1
        )
    }

    /// Process commands.
    pub open spec fn is_command(self) -> bool {
        match self {
            TypeID::C_SC_NA_1
            | TypeID::C_SC_TA_1
            | TypeID::C_DC_NA_1
            | TypeID::C_DC_TA_1
            | TypeID::C_RC_NA_1
            | TypeID::C_RC_TA_1
            | TypeID::C_BO_NA_1
            | TypeID::C_BO_TA_1
            | TypeID::C_SE_NA_1
            | TypeID::C_SE_TA_1
            | TypeID::C_SE_NB_1
            | TypeID::C_SE_TB_1
            | TypeID::C_SE_NC_1
            | TypeID::C_SE_TC_1 => true,
            _ => false,
        }
    }

    /// The command that sets what a measurement of this type reports; a
    /// command stands for itself.
    pub open spec fn command_spec(self) -> Option<TypeID> {
        if self.is_command() {
            Some(self)
        } else {
            match self {
                TypeID::M_SP_NA_1 => Some(TypeID::C_SC_NA_1),
                TypeID::M_SP_TA_1 | TypeID::M_SP_TB_1 => Some(TypeID::C_SC_TA_1),
                TypeID::M_DP_NA_1 => Some(TypeID::C_DC_NA_1),
                TypeID::M_DP_TA_1 | TypeID::M_DP_TB_1 => Some(TypeID::C_DC_TA_1),
                TypeID::M_ST_NA_1 => Some(TypeID::C_RC_NA_1),
                TypeID::M_ST_TA_1 | TypeID::M_ST_TB_1 => Some(TypeID::C_RC_TA_1),
                TypeID::M_BO_NA_1 => Some(TypeID::C_BO_NA_1),
                TypeID::M_BO_TA_1 | TypeID::M_BO_TB_1 => Some(TypeID::C_BO_TA_1),
                TypeID::M_ME_NA_1 | TypeID::M_ME_ND_1 => Some(TypeID::C_SE_NA_1),
                TypeID::M_ME_TA_1 | TypeID::M_ME_TD_1 => Some(TypeID::C_SE_TA_1),
                TypeID::M_ME_NB_1 => Some(TypeID::C_SE_NB_1),
                TypeID::M_ME_TB_1 | TypeID::M_ME_TE_1 => Some(TypeID::C_SE_TB_1),
                TypeID::M_ME_NC_1 => Some(TypeID::C_SE_NC_1),
                TypeID::M_ME_TC_1 | TypeID::M_ME_TF_1 => Some(TypeID::C_SE_TC_1),
                _ => None,
            }
        }
    }

    /// The command that sets what a measurement of this type reports.
    pub fn map_to_command(&self) -> (r: Option<TypeID>)
        ensures
            r == self.command_spec(),
    {
        match self {
            TypeID::C_SC_NA_1
            | TypeID::C_SC_TA_1
            | TypeID::C_DC_NA_1
            | TypeID::C_DC_TA_1
            | TypeID::C_RC_NA_1
            | TypeID::C_RC_TA_1
            | TypeID::C_BO_NA_1
            | TypeID::C_BO_TA_1
            | TypeID::C_SE_NA_1
            | TypeID::C_SE_TA_1
            | TypeID::C_SE_NB_1
            | TypeID::C_SE_TB_1
            | TypeID::C_SE_NC_1
            | TypeID::C_SE_TC_1 => Some(*self),
            TypeID::M_SP_NA_1 => Some(TypeID::C_SC_NA_1),
            TypeID::M_SP_TA_1 | TypeID::M_SP_TB_1 => Some(TypeID::C_SC_TA_1),
            TypeID::M_DP_NA_1 => Some(TypeID::C_DC_NA_1),
            TypeID::M_DP_TA_1 | TypeID::M_DP_TB_1 => Some(TypeID::C_DC_TA_1),
            TypeID::M_ST_NA_1 => Some(TypeID::C_RC_NA_1),
            TypeID::M_ST_TA_1 | TypeID::M_ST_TB_1 => Some(TypeID::C_RC_TA_1),
            TypeID::M_BO_NA_1 => Some(TypeID::C_BO_NA_1),
            TypeID::M_BO_TA_1 | TypeID::M_BO_TB_1 => Some(TypeID::C_BO_TA_1),
            TypeID::M_ME_NA_1 | TypeID::M_ME_ND_1 => Some(TypeID::C_SE_NA_1),
            TypeID::M_ME_TA_1 | TypeID::M_ME_TD_1 => Some(TypeID::C_SE_TA_1),
            TypeID::M_ME_NB_1 => Some(TypeID::C_SE_NB_1),
            TypeID::M_ME_TB_1 | TypeID::M_ME_TE_1 => Some(TypeID::C_SE_TB_1),
            TypeID::M_ME_NC_1 => Some(TypeID::C_SE_NC_1),
            TypeID::M_ME_TC_1 | TypeID::M_ME_TF_1 => Some(TypeID::C_SE_TC_1),
            _ => None,
        }
    }
}

/// Information object address: 16 bits of address below 8 spare bits.
#[derive(Debug, Clone, Copy, PartialEq, Eq, Structural)]
pub struct InfoObjAddr {
    pub res: u8,
    pub addr: u16,
}

impl InfoObjAddr {
    /// The 24 bits on the wire.
    pub open spec fn raw_spec(self) -> u32 {
        (self.res * 65536 + self.addr) as u32
    }

    /// The address that 24 bits stand for.
    pub open spec fn of_raw(raw: u32) -> InfoObjAddr {
        InfoObjAddr { res: (raw / 65536) as u8, addr: (raw % 65536) as u16 }
    }

    pub fn new(res: u8, addr: u16) -> (r: Self)
        ensures
            r == (InfoObjAddr { res, addr }),
    {
        InfoObjAddr { res, addr }
    }

    /// The address that 24 bits stand for.
    pub fn from_raw(raw: u32) -> (r: Self)
        requires
            raw < 0x100_0000,
        ensures
            r == InfoObjAddr::of_raw(raw),
            r.raw_spec() == raw,
    {
        InfoObjAddr { res: (raw / 65536) as u8, addr: (raw % 65536) as u16 }
    }

    pub fn raw(&self) -> (r: u32)
        ensures
            r == self.raw_spec(),
            r < 0x100_0000,
            InfoObjAddr::of_raw(r) == *self,
    {
        self.res as u32 * 65536 + self.addr as u32
    }
}

/// Data unit identifier.
#[derive(Debug, Clone, Copy, PartialEq, Eq, Structural)]
pub struct Identifier {
    pub type_id: TypeID,
    pub variable_struct: VariableStruct,
    pub cot: CauseOfTransmission,
    /// Originator address, commonly 0.
    pub orig_addr: OriginAddr,
    /// Station address.
    pub common_addr: CommonAddr,
}

impl Identifier {
    /// The bytes on the wire.
    pub open spec fn encoded(self) -> Seq<u8> {
        seq![
            self.type_id.code_spec(),
            self.variable_struct.raw_spec(),
            self.cot.raw_spec(),
            self.orig_addr,
        ] + le_bytes(self.common_addr as nat, 2)
    }

    /// The identifier as text: every byte in brackets.
    pub fn to_text(&self) -> (r: String)
        ensures
            r@ == all_bracketed(self.encoded(), ""@),
    {
        let mut b: Vec<u8> = vec![
            self.type_id.code(),
            self.variable_struct.raw(),
            self.cot.raw(),
            self.orig_addr,
        ];
        let mut ca = le_vec(self.common_addr as u64, 2);
        b.append(&mut ca);
        assert(b@ =~= self.encoded());
        bytes_text(b.as_slice(), "")
    }
}

/// Application service data unit.
#[derive(Debug, Clone)]
pub struct Asdu {
    pub identifier: Identifier,
    pub raw: Bytes,
}

/// An ASDU as mathematical data.
pub struct AsduData {
    pub identifier: Identifier,
    pub raw: Seq<u8>,
}

impl View for Asdu {
    type V = AsduData;

    open spec fn view(&self) -> AsduData {
        AsduData { identifier: self.identifier, raw: bytes_content(self.raw) }
    }
}

impl Asdu {
    /// The ASDU as text: every byte in brackets, those of the objects with a
    /// mark.
    pub fn to_text(&self) -> (r: String)
        ensures
            r@ == self@.text(),
    {
        let mut out = self.identifier.to_text();
        let raw = bytes_text(bytes_as_slice(&self.raw), "0x");
        out.append(raw.as_str());
        out
    }
}

impl AsduData {
    /// The bytes on the wire.
    pub open spec fn encoded(self) -> Seq<u8> {
        self.identifier.encoded() + self.raw
    }

    /// The ASDU as text.
    pub open spec fn text(self) -> Seq<char> {
        all_bracketed(self.identifier.encoded(), ""@) + all_bracketed(self.raw, "0x"@)
    }

    /// The ASDU with another cause.
    pub open spec fn with_cause(self, cause: Cause) -> AsduData {
        AsduData {
            identifier: Identifier {
                cot: CauseOfTransmission { cause, ..self.identifier.cot },
                ..self.identifier
            },
            ..self
        }
    }
}

/// What a reader says when the bytes end too early.
pub open spec fn end_of_data() -> Seq<char> {
    "failed to fill whole buffer"@
}

/// The ASDU that bytes stand for, or the error text. The identifier is read
/// field by field, and the first field that is missing or has no meaning
/// decides.
pub open spec fn decoded(b: Seq<u8>) -> Result<AsduData, Seq<char>> {
    if b.len() < 1 {
        Err(end_of_data())
    } else if TypeID::of_code(b[0]) is None {
        Err("Unknown TypeId: "@ + decimal(b[0] as nat))
    } else if b.len() < 3 {
        Err(end_of_data())
    } else if CauseOfTransmission::of_raw(b[2]) is None {
        Err("invalid cause of transmission"@)
    } else if b.len() < 6 {
        Err(end_of_data())
    } else {
        Ok(
            AsduData {
                identifier: Identifier {
                    type_id: TypeID::of_code(b[0])->0,
                    variable_struct: vs_of(b[1]),
                    cot: CauseOfTransmission::of_raw(b[2])->0,
                    orig_addr: b[3],
                    common_addr: le16(b, 4),
                },
                raw: b.skip(6),
            },
        )
    }
}

/// The variable structure qualifier with this byte.
pub open spec fn vs_of(raw: u8) -> VariableStruct {
    VariableStruct { raw }
}

impl Asdu {
    /// The same ASDU with another cause of transmission.
    pub fn mirror(&self, cause: Cause) -> (r: Self)
        ensures
            r@ == self@.with_cause(cause),
    {
        let mut identifier = self.identifier;
        identifier.cot = CauseOfTransmission::new(identifier.cot.test, identifier.cot.positive, cause);
        Asdu { identifier, raw: self.raw.clone() }
    }

    /// The ASDU that bytes stand for.
    pub fn try_from(bytes: Bytes) -> (r: Result<Self, String>)
        ensures
            match decoded(bytes_content(bytes)) {
                Ok(a) => r matches Ok(x) && x@ == a,
                Err(text) => r matches Err(e) && e@ == text,
            },
    {
        let b = bytes_as_slice(&bytes);
        let n: usize = b.len();
        if n < 1 {
            return Err("failed to fill whole buffer".to_owned());
        }
        let type_id = match TypeID::try_from(b[0]) {
            Ok(t) => t,
            Err(e) => {
                return Err(e);
            },
        };
        if n < 3 {
            return Err("failed to fill whole buffer".to_owned());
        }
        let cot = match CauseOfTransmission::try_from(b[2]) {
            Ok(c) => c,
            Err(_) => {
                return Err("invalid cause of transmission".to_owned());
            },
        };
        if n < 6 {
            return Err("failed to fill whole buffer".to_owned());
        }
        let identifier = Identifier {
            type_id,
            variable_struct: VariableStruct::from_raw(b[1]),
            cot,
            orig_addr: b[3],
            common_addr: le16_at(b, 4),
        };
        let raw = bytes_slice(&bytes, IDENTIFIER_SIZE, n);
        proof {
            assert(identifier.variable_struct == vs_of(b@[1]));
            assert(bytes_content(raw) =~= b@.skip(6));
        }
        Ok(Asdu { identifier, raw })
    }

    /// The bytes of the ASDU on the wire.
    pub fn into_bytes(self) -> (r: Bytes)
        ensures
            bytes_content(r) == self@.encoded(),
    {
        let mut buf = buf_new();
        buf_put_u8(&mut buf, self.identifier.type_id.code());
        buf_put_u8(&mut buf, self.identifier.variable_struct.raw());
        buf_put_u8(&mut buf, self.identifier.cot.raw());
        buf_put_u8(&mut buf, self.identifier.orig_addr);
        buf_put_u16_le(&mut buf, self.identifier.common_addr);
        buf_extend(&mut buf, bytes_as_slice(&self.raw));
        proof {
            assert(buf_content(buf) =~= self@.encoded());
        }
        buf_freeze(buf)
    }
}

/// Reading what was written gives the ASDU back.
pub proof fn written_asdu_is_read_back(a: AsduData)
    ensures
        decoded(a.encoded()) == Ok::<AsduData, Seq<char>>(a),
{
    lemma_le2(a.identifier.common_addr as nat);
    let b = a.encoded();
    let i = a.identifier;
    assert(b[0] == i.type_id.code_spec());
    assert(b[1] == i.variable_struct.raw_spec());
    assert(b[2] == i.cot.raw_spec());
    assert(b[3] == i.orig_addr);
    type_codes_are_read_back(i.type_id);
    causes_are_read_back(i.cot);
    assert(b.skip(6) =~= a.raw);
    assert(vs_of(b[1]) == i.variable_struct);
}

/// Writing what was read gives the bytes back, but for the type numbers
/// without a type of their own.
pub proof fn read_asdu_is_written_back(b: Seq<u8>)
    requires
        decoded(b) is Ok,
        !(52 <= b[0] <= 57),
    ensures
        (decoded(b)->Ok_0).encoded() == b,
{
    let a = decoded(b)->Ok_0;
    lemma_le2(a.identifier.common_addr as nat);
    assert(a.identifier.type_id.code_spec() == b[0]);
    assert(a.identifier.cot.raw_spec() == b[2]);
    assert(a.encoded() =~= b);
}

/// Every type is read from its own number.
pub proof fn type_codes_are_read_back(t: TypeID)
    ensures
        TypeID::of_code(t.code_spec()) == Some(t),
{
}

/// Every cause of transmission is read from its own byte.
pub proof fn causes_are_read_back(c: CauseOfTransmission)
    ensures
        CauseOfTransmission::of_raw(c.raw_spec()) == Some(c),
{
    assert(c.raw_spec() % 64 == c.cause.code_spec());
}

/// Two types never share a number.
pub proof fn type_codes_are_distinct(a: TypeID, b: TypeID)
    requires
        a.code_spec() == b.code_spec(),
    ensures
        a == b,
{
    type_codes_are_read_back(a);
    type_codes_are_read_back(b);
}

/// A command that is mapped stays what it is, and what a type is mapped to is
/// a command.
pub proof fn mapping_to_commands_is_idempotent(t: TypeID)
    requires
        t.command_spec() is Some,
    ensures
        (t.command_spec()->0).is_command(),
        (t.command_spec()->0).command_spec() == t.command_spec(),
{
}

} // verus!
