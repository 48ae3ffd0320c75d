//! The format on the wire in numbers: type and cause codes, the bytes of the
//! identifier, and which command sets what a measurement reports.

use super::asdu::{
    decoded, AsduData, Cause, CauseOfTransmission, Identifier, TypeID, VariableStruct,
};
use crate::wire::lemma_le2;
use vstd::prelude::*;

verus! {

/// The type codes of IEC 60870-5-101 and -104.
pub proof fn type_codes()
    ensures
        TypeID::M_SP_NA_1.code_spec() == 1,
        TypeID::M_SP_TA_1.code_spec() == 2,
        TypeID::M_DP_NA_1.code_spec() == 3,
        TypeID::M_DP_TA_1.code_spec() == 4,
        TypeID::M_ST_NA_1.code_spec() == 5,
        TypeID::M_ST_TA_1.code_spec() == 6,
        TypeID::M_BO_NA_1.code_spec() == 7,
        TypeID::M_BO_TA_1.code_spec() == 8,
        TypeID::M_ME_NA_1.code_spec() == 9,
        TypeID::M_ME_TA_1.code_spec() == 10,
        TypeID::M_ME_NB_1.code_spec() == 11,
        TypeID::M_ME_TB_1.code_spec() == 12,
        TypeID::M_ME_NC_1.code_spec() == 13,
        TypeID::M_ME_TC_1.code_spec() == 14,
        TypeID::M_IT_NA_1.code_spec() == 15,
        TypeID::M_IT_TA_1.code_spec() == 16,
        TypeID::M_EP_TA_1.code_spec() == 17,
        TypeID::M_EP_TB_1.code_spec() == 18,
        TypeID::M_EP_TC_1.code_spec() == 19,
        TypeID::M_PS_NA_1.code_spec() == 20,
        TypeID::M_ME_ND_1.code_spec() == 21,
        TypeID::M_SP_TB_1.code_spec() == 30,
        TypeID::M_DP_TB_1.code_spec() == 31,
        TypeID::M_ST_TB_1.code_spec() == 32,
        TypeID::M_BO_TB_1.code_spec() == 33,
        TypeID::M_ME_TD_1.code_spec() == 34,
        TypeID::M_ME_TE_1.code_spec() == 35,
        TypeID::M_ME_TF_1.code_spec() == 36,
        TypeID::M_IT_TB_1.code_spec() == 37,
        TypeID::M_EP_TD_1.code_spec() == 38,
        TypeID::M_EP_TE_1.code_spec() == 39,
        TypeID::M_EP_TF_1.code_spec() == 40,
        TypeID::S_IT_TC_1.code_spec() == 41,
        TypeID::C_SC_NA_1.code_spec() == 45,
        TypeID::C_DC_NA_1.code_spec() == 46,
        TypeID::C_RC_NA_1.code_spec() == 47,
        TypeID::C_SE_NA_1.code_spec() == 48,
        TypeID::C_SE_NB_1.code_spec() == 49,
        TypeID::C_SE_NC_1.code_spec() == 50,
        TypeID::C_BO_NA_1.code_spec() == 51,
        TypeID::C_SC_TA_1.code_spec() == 58,
        TypeID::C_DC_TA_1.code_spec() == 59,
        TypeID::C_RC_TA_1.code_spec() == 60,
        TypeID::C_SE_TA_1.code_spec() == 61,
        TypeID::C_SE_TB_1.code_spec() == 62,
        TypeID::C_SE_TC_1.code_spec() == 63,
        TypeID::C_BO_TA_1.code_spec() == 64,
        TypeID::M_EI_NA_1.code_spec() == 70,
        TypeID::S_CH_NA_1.code_spec() == 81,
        TypeID::S_RP_NA_1.code_spec() == 82,
        TypeID::S_AR_NA_1.code_spec() == 83,
        TypeID::S_KR_NA_1.code_spec() == 84,
        TypeID::S_KS_NA_1.code_spec() == 85,
        TypeID::S_KC_NA_1.code_spec() == 86,
        TypeID::S_ER_NA_1.code_spec() == 87,
        TypeID::S_US_NA_1.code_spec() == 90,
        TypeID::S_UQ_NA_1.code_spec() == 91,
        TypeID::S_UR_NA_1.code_spec() == 92,
        TypeID::S_UK_NA_1.code_spec() == 93,
        TypeID::S_UA_NA_1.code_spec() == 94,
        TypeID::S_UC_NA_1.code_spec() == 95,
        TypeID::C_IC_NA_1.code_spec() == 100,
        TypeID::C_CI_NA_1.code_spec() == 101,
        TypeID::C_RD_NA_1.code_spec() == 102,
        TypeID::C_CS_NA_1.code_spec() == 103,
        TypeID::C_TS_NA_1.code_spec() == 104,
        TypeID::C_RP_NA_1.code_spec() == 105,
        TypeID::C_CD_NA_1.code_spec() == 106,
        TypeID::C_TS_TA_1.code_spec() == 107,
        TypeID::P_ME_NA_1.code_spec() == 110,
        TypeID::P_ME_NB_1.code_spec() == 111,
        TypeID::P_ME_NC_1.code_spec() == 112,
        TypeID::P_AC_NA_1.code_spec() == 113,
        TypeID::F_FR_NA_1.code_spec() == 120,
        TypeID::F_SR_NA_1.code_spec() == 121,
        TypeID::F_SC_NA_1.code_spec() == 122,
        TypeID::F_LS_NA_1.code_spec() == 123,
        TypeID::F_AF_NA_1.code_spec() == 124,
        TypeID::F_SG_NA_1.code_spec() == 125,
        TypeID::F_DR_TA_1.code_spec() == 126,
        TypeID::F_SC_NB_1.code_spec() == 127,
{
}

/// A number stands for a type exactly in these ranges, and it is the number
/// of the type that it stands for; only 52 to 57, which no type has, are read
/// as integrated totals with a short time tag.
pub proof fn type_of_a_code(code: u8)
    ensures
        TypeID::of_code(code) is Some <==> (1 <= code <= 21 || 30 <= code <= 41 || 45 <= code <= 64
            || code == 70 || 81 <= code <= 87 || 90 <= code <= 95 || 100
            <= code <= 107 || 110 <= code <= 113 || 120 <= code <= 127),
        TypeID::of_code(code) matches Some(t) ==> t.code_spec() == if 52 <= code <= 57 {
            16
        } else {
            code
        },
{
}

/// The codes of the causes of transmission.
pub proof fn cause_codes()
    ensures
        Cause::Unused.code_spec() == 0,
        Cause::Periodic.code_spec() == 1,
        Cause::Background.code_spec() == 2,
        Cause::Spontaneous.code_spec() == 3,
        Cause::Initialized.code_spec() == 4,
        Cause::Request.code_spec() == 5,
        Cause::Activation.code_spec() == 6,
        Cause::ActivationCon.code_spec() == 7,
        Cause::Deactivation.code_spec() == 8,
        Cause::DeactivationCon.code_spec() == 9,
        Cause::ActivationTerm.code_spec() == 10,
        Cause::ReturnInfoRemote.code_spec() == 11,
        Cause::ReturnInfoLocal.code_spec() == 12,
        Cause::FileTransfer.code_spec() == 13,
        Cause::Authentication.code_spec() == 14,
        Cause::SessionKey.code_spec() == 15,
        Cause::UserRoleAndUpdateKey.code_spec() == 16,
        Cause::Reserved1.code_spec() == 17,
        Cause::Reserved2.code_spec() == 18,
        Cause::Reserved3.code_spec() == 19,
        Cause::InterrogatedByStation.code_spec() == 20,
        Cause::InterrogatedByGroup1.code_spec() == 21,
        Cause::InterrogatedByGroup2.code_spec() == 22,
        Cause::InterrogatedByGroup3.code_spec() == 23,
        Cause::InterrogatedByGroup4.code_spec() == 24,
        Cause::InterrogatedByGroup5.code_spec() == 25,
        Cause::InterrogatedByGroup6.code_spec() == 26,
        Cause::InterrogatedByGroup7.code_spec() == 27,
        Cause::InterrogatedByGroup8.code_spec() == 28,
        Cause::InterrogatedByGroup9.code_spec() == 29,
        Cause::InterrogatedByGroup10.code_spec() == 30,
        Cause::InterrogatedByGroup11.code_spec() == 31,
        Cause::InterrogatedByGroup12.code_spec() == 32,
        Cause::InterrogatedByGroup13.code_spec() == 33,
        Cause::InterrogatedByGroup14.code_spec() == 34,
        Cause::InterrogatedByGroup15.code_spec() == 35,
        Cause::InterrogatedByGroup16.code_spec() == 36,
        Cause::RequestByGeneralCounter.code_spec() == 37,
        Cause::RequestByGroup1Counter.code_spec() == 38,
        Cause::RequestByGroup2Counter.code_spec() == 39,
        Cause::RequestByGroup3Counter.code_spec() == 40,
        Cause::RequestByGroup4Counter.code_spec() == 41,
        Cause::Reserved4.code_spec() == 42,
        Cause::Reserved5.code_spec() == 43,
        Cause::UnknownTypeID.code_spec() == 44,
        Cause::UnknownCOT.code_spec() == 45,
        Cause::UnknownCA.code_spec() == 46,
        Cause::UnknownIOA.code_spec() == 47,
{
}

/// The numbers below 48 stand for a cause, each for the one whose number it
/// is; the others stand for none.
pub proof fn cause_of_a_code(code: u8)
    ensures
        Cause::of_code(code) is Some <==> code < 48,
        Cause::of_code(code) matches Some(c) ==> c.code_spec() == code,
{
}

/// The cause byte: the cause in the low six bits, the confirmation flag in
/// bit 6, the test flag in bit 7.
pub proof fn cause_byte(c: CauseOfTransmission)
    ensures
        c.raw_spec() % 64 == c.cause.code_spec(),
        c.raw_spec() / 64 % 2 == 1 <==> c.positive,
        c.raw_spec() / 128 == 1 <==> c.test,
{
}

/// What a cause byte is read as.
pub proof fn cause_of_a_byte(raw: u8)
    ensures
        CauseOfTransmission::of_raw(raw) is Some <==> raw % 64 < 48,
        CauseOfTransmission::of_raw(raw) matches Some(c) ==> c.cause.code_spec() == raw % 64
            && c.positive == (raw / 64 % 2 == 1) && c.test == (raw / 128 == 1),
{
    cause_of_a_code(raw % 64);
}

/// The qualifier byte: the number of objects in the low seven bits, the
/// sequence flag in bit 7.
pub proof fn qualifier_byte(v: VariableStruct)
    ensures
        v.raw_spec() == v.number_spec() + (if v.is_sequence_spec() {
            128int
        } else {
            0
        }),
        v.number_spec() < 128,
{
}

/// Information objects that a type is about.
pub enum ObjectKind {
    SinglePoint,
    DoublePoint,
    StepPosition,
    BitString,
    Normalized,
    Scaled,
    ShortFloat,
}

/// What measurements and commands of a type carry.
pub open spec fn object_kind(t: TypeID) -> Option<ObjectKind> {
    if t == TypeID::M_SP_NA_1 || t == TypeID::M_SP_TA_1 || t == TypeID::M_SP_TB_1 || t
        == TypeID::C_SC_NA_1 || t == TypeID::C_SC_TA_1 {
        Some(ObjectKind::SinglePoint)
    } else if t == TypeID::M_DP_NA_1 || t == TypeID::M_DP_TA_1 || t == TypeID::M_DP_TB_1 || t
        == TypeID::C_DC_NA_1 || t == TypeID::C_DC_TA_1 {
        Some(ObjectKind::DoublePoint)
    } else if t == TypeID::M_ST_NA_1 || t == TypeID::M_ST_TA_1 || t == TypeID::M_ST_TB_1 || t
        == TypeID::C_RC_NA_1 || t == TypeID::C_RC_TA_1 {
        Some(ObjectKind::StepPosition)
    } else if t == TypeID::M_BO_NA_1 || t == TypeID::M_BO_TA_1 || t == TypeID::M_BO_TB_1 || t
        == TypeID::C_BO_NA_1 || t == TypeID::C_BO_TA_1 {
        Some(ObjectKind::BitString)
    } else if t == TypeID::M_ME_NA_1 || t == TypeID::M_ME_ND_1 || t == TypeID::M_ME_TA_1 || t
        == TypeID::M_ME_TD_1 || t == TypeID::C_SE_NA_1 || t == TypeID::C_SE_TA_1 {
        Some(ObjectKind::Normalized)
    } else if t == TypeID::M_ME_NB_1 || t == TypeID::M_ME_TB_1 || t == TypeID::M_ME_TE_1 || t
        == TypeID::C_SE_NB_1 || t == TypeID::C_SE_TB_1 {
        Some(ObjectKind::Scaled)
    } else if t == TypeID::M_ME_NC_1 || t == TypeID::M_ME_TC_1 || t == TypeID::M_ME_TF_1 || t
        == TypeID::C_SE_NC_1 || t == TypeID::C_SE_TC_1 {
        Some(ObjectKind::ShortFloat)
    } else {
        None
    }
}

/// Measurements and commands with a time tag.
pub open spec fn time_tagged(t: TypeID) -> bool {
    let c = t.code_spec();
    c == 2 || c == 4 || c == 6 || c == 8 || c == 10 || c == 12 || c == 14 || 30 <= c <= 36 || 58
        <= c <= 64
}

/// Process commands have the codes 45 to 51 without and 58 to 64 with a time
/// tag.
pub open spec fn process_command(t: TypeID) -> bool {
    45 <= t.code_spec() <= 51 || 58 <= t.code_spec() <= 64
}

/// The command that sets a measurement carries a value of the same kind, and
/// it is time tagged exactly when the measurement is. Types that carry no
/// such value have no command.
pub proof fn command_has_the_kind_of_its_measurement(t: TypeID)
    ensures
        t.command_spec() is Some <==> object_kind(t) is Some,
        t.command_spec() matches Some(c) ==> process_command(c) && object_kind(c) == object_kind(t)
            && time_tagged(c) == time_tagged(t),
        process_command(t) ==> t.command_spec() == Some(t),
{
}

/// The command of each measurement, by code.
pub proof fn command_codes_of_measurements(t: TypeID, c: TypeID)
    requires
        t.command_spec() == Some(c),
    ensures
        t.code_spec() == 1 ==> c.code_spec() == 45,
        t.code_spec() == 3 ==> c.code_spec() == 46,
        t.code_spec() == 5 ==> c.code_spec() == 47,
        t.code_spec() == 9 || t.code_spec() == 21 ==> c.code_spec() == 48,
        t.code_spec() == 11 ==> c.code_spec() == 49,
        t.code_spec() == 13 ==> c.code_spec() == 50,
        t.code_spec() == 7 ==> c.code_spec() == 51,
        t.code_spec() == 2 || t.code_spec() == 30 ==> c.code_spec() == 58,
        t.code_spec() == 4 || t.code_spec() == 31 ==> c.code_spec() == 59,
        t.code_spec() == 6 || t.code_spec() == 32 ==> c.code_spec() == 60,
        t.code_spec() == 10 || t.code_spec() == 34 ==> c.code_spec() == 61,
        t.code_spec() == 12 || t.code_spec() == 35 ==> c.code_spec() == 62,
        t.code_spec() == 14 || t.code_spec() == 36 ==> c.code_spec() == 63,
        t.code_spec() == 8 || t.code_spec() == 33 ==> c.code_spec() == 64,
{
}

/// A command carries a moment exactly where its code is one of 58 to 64.
pub proof fn tagged_commands_need_a_moment(t: TypeID)
    ensures
        t.needs_time_spec() <==> 58 <= t.code_spec() <= 64,
{
}

/// The six bytes of an identifier: type, qualifier, cause, originator, and
/// the common address with its low byte first.
pub proof fn identifier_bytes(id: Identifier)
    ensures
        id.encoded().len() == 6,
        id.encoded()[0] == id.type_id.code_spec(),
        id.encoded()[1] == id.variable_struct.number_spec() + (if id.variable_struct.is_sequence_spec() {
            128int
        } else {
            0
        }),
        id.encoded()[2] == id.cot.cause.code_spec() + (if id.cot.positive {
            64int
        } else {
            0
        }) + (if id.cot.test {
            128int
        } else {
            0
        }),
        id.encoded()[3] == id.orig_addr,
        id.encoded()[4] + 256 * id.encoded()[5] == id.common_addr,
{
    lemma_le2(id.common_addr as nat);
}

/// An ASDU is its identifier and then its objects, byte by byte.
pub proof fn asdu_bytes(a: AsduData, i: int)
    requires
        0 <= i < a.encoded().len(),
    ensures
        a.encoded().len() == 6 + a.raw.len(),
        i < 6 ==> a.encoded()[i] == a.identifier.encoded()[i],
        i >= 6 ==> a.encoded()[i] == a.raw[i - 6],
{
    identifier_bytes(a.identifier);
}

/// Bytes are read as an ASDU exactly when there are six of them at least, the
/// first is the code of a type and the third holds a cause; every field then
/// comes from its own byte.
pub proof fn bytes_of_an_asdu(b: Seq<u8>)
    ensures
        decoded(b) is Ok <==> (b.len() >= 6 && TypeID::of_code(b[0]) is Some && b[2] % 64 < 48),
        decoded(b) matches Ok(a) ==> {
            &&& a.identifier.type_id.code_spec() == if 52 <= b[0] <= 57 {
                16
            } else {
                b[0]
            }
            &&& a.identifier.variable_struct.number_spec() == b[1] % 128
            &&& a.identifier.variable_struct.is_sequence_spec() == (b[1] / 128 == 1)
            &&& a.identifier.cot.cause.code_spec() == b[2] % 64
            &&& a.identifier.cot.positive == (b[2] / 64 % 2 == 1)
            &&& a.identifier.cot.test == (b[2] / 128 == 1)
            &&& a.identifier.orig_addr == b[3]
            &&& a.identifier.common_addr == b[4] + 256 * b[5]
            &&& a.raw.len() == b.len() - 6
            &&& forall|i: int| 0 <= i < a.raw.len() ==> a.raw[i] == b[i + 6]
        },
{
    if b.len() >= 6 {
        cause_of_a_byte(b[2]);
        type_of_a_code(b[0]);
    } else if b.len() >= 3 {
        cause_of_a_byte(b[2]);
    }
}

} // verus!
