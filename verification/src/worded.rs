//! The words of errors and names, and how numbers stand in texts.

use crate::gateway::{DataType, DriverError};
use crate::iec104::driver::{
    cast_failure, complaint, is_refused, unknown_type, CastValue, CommandKind, Purpose,
};
use crate::iec104::protocol::error::{cause_text, error_text, Error};
use crate::iec104::protocol::frame::asdu::{Cause, CauseOfTransmission, TypeID};
use crate::iec104::protocol::session::requests::{failure_reason, ConnectFailure};
use crate::text::{
    bracketed, decimal, digit_value, digits_value, hex16, number, parts_text, small_hex_char,
};
use vstd::prelude::*;

verus! {

/// The names of type identifications.
pub proof fn names_of_types()
    ensures
        TypeID::M_SP_NA_1.name_spec() == "M_SP_NA_1"@,
        TypeID::M_SP_TA_1.name_spec() == "M_SP_TA_1"@,
        TypeID::M_DP_NA_1.name_spec() == "M_DP_NA_1"@,
        TypeID::M_DP_TA_1.name_spec() == "M_DP_TA_1"@,
        TypeID::M_ST_NA_1.name_spec() == "M_ST_NA_1"@,
        TypeID::M_ST_TA_1.name_spec() == "M_ST_TA_1"@,
        TypeID::M_BO_NA_1.name_spec() == "M_BO_NA_1"@,
        TypeID::M_BO_TA_1.name_spec() == "M_BO_TA_1"@,
        TypeID::M_ME_NA_1.name_spec() == "M_ME_NA_1"@,
        TypeID::M_ME_TA_1.name_spec() == "M_ME_TA_1"@,
        TypeID::M_ME_NB_1.name_spec() == "M_ME_NB_1"@,
        TypeID::M_ME_TB_1.name_spec() == "M_ME_TB_1"@,
        TypeID::M_ME_NC_1.name_spec() == "M_ME_NC_1"@,
        TypeID::M_ME_TC_1.name_spec() == "M_ME_TC_1"@,
        TypeID::M_IT_NA_1.name_spec() == "M_IT_NA_1"@,
        TypeID::M_IT_TA_1.name_spec() == "M_IT_TA_1"@,
        TypeID::M_EP_TA_1.name_spec() == "M_EP_TA_1"@,
        TypeID::M_EP_TB_1.name_spec() == "M_EP_TB_1"@,
        TypeID::M_EP_TC_1.name_spec() == "M_EP_TC_1"@,
        TypeID::M_PS_NA_1.name_spec() == "M_PS_NA_1"@,
        TypeID::M_ME_ND_1.name_spec() == "M_ME_ND_1"@,
        TypeID::M_SP_TB_1.name_spec() == "M_SP_TB_1"@,
        TypeID::M_DP_TB_1.name_spec() == "M_DP_TB_1"@,
        TypeID::M_ST_TB_1.name_spec() == "M_ST_TB_1"@,
        TypeID::M_BO_TB_1.name_spec() == "M_BO_TB_1"@,
        TypeID::M_ME_TD_1.name_spec() == "M_ME_TD_1"@,
        TypeID::M_ME_TE_1.name_spec() == "M_ME_TE_1"@,
        TypeID::M_ME_TF_1.name_spec() == "M_ME_TF_1"@,
        TypeID::M_IT_TB_1.name_spec() == "M_IT_TB_1"@,
        TypeID::M_EP_TD_1.name_spec() == "M_EP_TD_1"@,
        TypeID::M_EP_TE_1.name_spec() == "M_EP_TE_1"@,
        TypeID::M_EP_TF_1.name_spec() == "M_EP_TF_1"@,
        TypeID::S_IT_TC_1.name_spec() == "S_IT_TC_1"@,
        TypeID::C_SC_NA_1.name_spec() == "C_SC_NA_1"@,
        TypeID::C_DC_NA_1.name_spec() == "C_DC_NA_1"@,
        TypeID::C_RC_NA_1.name_spec() == "C_RC_NA_1"@,
        TypeID::C_SE_NA_1.name_spec() == "C_SE_NA_1"@,
        TypeID::C_SE_NB_1.name_spec() == "C_SE_NB_1"@,
        TypeID::C_SE_NC_1.name_spec() == "C_SE_NC_1"@,
        TypeID::C_BO_NA_1.name_spec() == "C_BO_NA_1"@,
        TypeID::C_SC_TA_1.name_spec() == "C_SC_TA_1"@,
        TypeID::C_DC_TA_1.name_spec() == "C_DC_TA_1"@,
        TypeID::C_RC_TA_1.name_spec() == "C_RC_TA_1"@,
        TypeID::C_SE_TA_1.name_spec() == "C_SE_TA_1"@,
        TypeID::C_SE_TB_1.name_spec() == "C_SE_TB_1"@,
        TypeID::C_SE_TC_1.name_spec() == "C_SE_TC_1"@,
        TypeID::C_BO_TA_1.name_spec() == "C_BO_TA_1"@,
        TypeID::M_EI_NA_1.name_spec() == "M_EI_NA_1"@,
        TypeID::S_CH_NA_1.name_spec() == "S_CH_NA_1"@,
        TypeID::S_RP_NA_1.name_spec() == "S_RP_NA_1"@,
        TypeID::S_AR_NA_1.name_spec() == "S_AR_NA_1"@,
        TypeID::S_KR_NA_1.name_spec() == "S_KR_NA_1"@,
        TypeID::S_KS_NA_1.name_spec() == "S_KS_NA_1"@,
        TypeID::S_KC_NA_1.name_spec() == "S_KC_NA_1"@,
        TypeID::S_ER_NA_1.name_spec() == "S_ER_NA_1"@,
        TypeID::S_US_NA_1.name_spec() == "S_US_NA_1"@,
        TypeID::S_UQ_NA_1.name_spec() == "S_UQ_NA_1"@,
        TypeID::S_UR_NA_1.name_spec() == "S_UR_NA_1"@,
        TypeID::S_UK_NA_1.name_spec() == "S_UK_NA_1"@,
        TypeID::S_UA_NA_1.name_spec() == "S_UA_NA_1"@,
        TypeID::S_UC_NA_1.name_spec() == "S_UC_NA_1"@,
        TypeID::C_IC_NA_1.name_spec() == "C_IC_NA_1"@,
        TypeID::C_CI_NA_1.name_spec() == "C_CI_NA_1"@,
        TypeID::C_RD_NA_1.name_spec() == "C_RD_NA_1"@,
        TypeID::C_CS_NA_1.name_spec() == "C_CS_NA_1"@,
        TypeID::C_TS_NA_1.name_spec() == "C_TS_NA_1"@,
        TypeID::C_RP_NA_1.name_spec() == "C_RP_NA_1"@,
        TypeID::C_CD_NA_1.name_spec() == "C_CD_NA_1"@,
        TypeID::C_TS_TA_1.name_spec() == "C_TS_TA_1"@,
        TypeID::P_ME_NA_1.name_spec() == "P_ME_NA_1"@,
        TypeID::P_ME_NB_1.name_spec() == "P_ME_NB_1"@,
        TypeID::P_ME_NC_1.name_spec() == "P_ME_NC_1"@,
        TypeID::P_AC_NA_1.name_spec() == "P_AC_NA_1"@,
        TypeID::F_FR_NA_1.name_spec() == "F_FR_NA_1"@,
        TypeID::F_SR_NA_1.name_spec() == "F_SR_NA_1"@,
        TypeID::F_SC_NA_1.name_spec() == "F_SC_NA_1"@,
        TypeID::F_LS_NA_1.name_spec() == "F_LS_NA_1"@,
        TypeID::F_AF_NA_1.name_spec() == "F_AF_NA_1"@,
        TypeID::F_SG_NA_1.name_spec() == "F_SG_NA_1"@,
        TypeID::F_DR_TA_1.name_spec() == "F_DR_TA_1"@,
        TypeID::F_SC_NB_1.name_spec() == "F_SC_NB_1"@,
{
}

/// The names of causes of transmission.
pub proof fn names_of_causes()
    ensures
        Cause::Unused.name_spec() == "Unused"@,
        Cause::Periodic.name_spec() == "Periodic"@,
        Cause::Background.name_spec() == "Background"@,
        Cause::Spontaneous.name_spec() == "Spontaneous"@,
        Cause::Initialized.name_spec() == "Initialized"@,
        Cause::Request.name_spec() == "Request"@,
        Cause::Activation.name_spec() == "Activation"@,
        Cause::ActivationCon.name_spec() == "ActivationCon"@,
        Cause::Deactivation.name_spec() == "Deactivation"@,
        Cause::DeactivationCon.name_spec() == "DeactivationCon"@,
        Cause::ActivationTerm.name_spec() == "ActivationTerm"@,
        Cause::ReturnInfoRemote.name_spec() == "ReturnInfoRemote"@,
        Cause::ReturnInfoLocal.name_spec() == "ReturnInfoLocal"@,
        Cause::FileTransfer.name_spec() == "FileTransfer"@,
        Cause::Authentication.name_spec() == "Authentication"@,
        Cause::SessionKey.name_spec() == "SessionKey"@,
        Cause::UserRoleAndUpdateKey.name_spec() == "UserRoleAndUpdateKey"@,
        Cause::Reserved1.name_spec() == "Reserved1"@,
        Cause::Reserved2.name_spec() == "Reserved2"@,
        Cause::Reserved3.name_spec() == "Reserved3"@,
        Cause::InterrogatedByStation.name_spec() == "InterrogatedByStation"@,
        Cause::InterrogatedByGroup1.name_spec() == "InterrogatedByGroup1"@,
        Cause::InterrogatedByGroup2.name_spec() == "InterrogatedByGroup2"@,
        Cause::InterrogatedByGroup3.name_spec() == "InterrogatedByGroup3"@,
        Cause::InterrogatedByGroup4.name_spec() == "InterrogatedByGroup4"@,
        Cause::InterrogatedByGroup5.name_spec() == "InterrogatedByGroup5"@,
        Cause::InterrogatedByGroup6.name_spec() == "InterrogatedByGroup6"@,
        Cause::InterrogatedByGroup7.name_spec() == "InterrogatedByGroup7"@,
        Cause::InterrogatedByGroup8.name_spec() == "InterrogatedByGroup8"@,
        Cause::InterrogatedByGroup9.name_spec() == "InterrogatedByGroup9"@,
        Cause::InterrogatedByGroup10.name_spec() == "InterrogatedByGroup10"@,
        Cause::InterrogatedByGroup11.name_spec() == "InterrogatedByGroup11"@,
        Cause::InterrogatedByGroup12.name_spec() == "InterrogatedByGroup12"@,
        Cause::InterrogatedByGroup13.name_spec() == "InterrogatedByGroup13"@,
        Cause::InterrogatedByGroup14.name_spec() == "InterrogatedByGroup14"@,
        Cause::InterrogatedByGroup15.name_spec() == "InterrogatedByGroup15"@,
        Cause::InterrogatedByGroup16.name_spec() == "InterrogatedByGroup16"@,
        Cause::RequestByGeneralCounter.name_spec() == "RequestByGeneralCounter"@,
        Cause::RequestByGroup1Counter.name_spec() == "RequestByGroup1Counter"@,
        Cause::RequestByGroup2Counter.name_spec() == "RequestByGroup2Counter"@,
        Cause::RequestByGroup3Counter.name_spec() == "RequestByGroup3Counter"@,
        Cause::RequestByGroup4Counter.name_spec() == "RequestByGroup4Counter"@,
        Cause::Reserved4.name_spec() == "Reserved4"@,
        Cause::Reserved5.name_spec() == "Reserved5"@,
        Cause::UnknownTypeID.name_spec() == "UnknownTypeID"@,
        Cause::UnknownCOT.name_spec() == "UnknownCOT"@,
        Cause::UnknownCA.name_spec() == "UnknownCA"@,
        Cause::UnknownIOA.name_spec() == "UnknownIOA"@,
{
}

/// The names of data types.
pub proof fn names_of_data_types()
    ensures
        DataType::Boolean.name_spec() == "Boolean"@,
        DataType::Int8.name_spec() == "Int8"@,
        DataType::UInt8.name_spec() == "UInt8"@,
        DataType::Int16.name_spec() == "Int16"@,
        DataType::UInt16.name_spec() == "UInt16"@,
        DataType::Int32.name_spec() == "Int32"@,
        DataType::UInt32.name_spec() == "UInt32"@,
        DataType::Int64.name_spec() == "Int64"@,
        DataType::UInt64.name_spec() == "UInt64"@,
        DataType::Float32.name_spec() == "Float32"@,
        DataType::Float64.name_spec() == "Float64"@,
        DataType::String.name_spec() == "String"@,
        DataType::Binary.name_spec() == "Binary"@,
        DataType::Timestamp.name_spec() == "Timestamp"@,
{
}

proof fn lemma_decimal(n: nat)
    ensures
        decimal(n).len() > 0,
        forall|i: int| 0 <= i < decimal(n).len() ==> '0' <= #[trigger] decimal(n)[i] <= '9',
        digits_value(decimal(n), 10) == n,
        n > 0 ==> decimal(n)[0] != '0',
    decreases n,
{
    let s = decimal(n);
    if n < 10 {
        assert(s.drop_last() =~= Seq::<char>::empty());
        assert(digits_value(s.drop_last(), 10) == 0);
    } else {
        lemma_decimal(n / 10);
        assert(s.drop_last() =~= decimal(n / 10));
    }
}

/// A number in decimal notation is made of decimal digits, has no zero in
/// front but for 0 itself, and is read back as the number.
pub proof fn decimal_numbers_are_read_back(n: nat)
    ensures
        number(decimal(n), 10) == Some(n),
        forall|i: int| 0 <= i < decimal(n).len() ==> '0' <= #[trigger] decimal(n)[i] <= '9',
        n > 0 ==> decimal(n)[0] != '0',
        n == 0 ==> decimal(n) == seq!['0'],
{
    lemma_decimal(n);
}

/// A completion code stands behind 0x with four digits of base 16 and small
/// letters, and is read back as the code.
pub proof fn codes_are_read_back(n: u16)
    ensures
        hex16(n).len() == 6,
        hex16(n)[0] == '0' && hex16(n)[1] == 'x',
        forall|i: int|
            2 <= i < 6 ==> '0' <= #[trigger] hex16(n)[i] <= '9' || 'a' <= hex16(n)[i] <= 'f',
        number(hex16(n).skip(2), 16) == Some(n as nat),
{
    let s = hex16(n).skip(2);
    let (a, b, c, d) = (n / 4096, n / 256 % 16, n / 16 % 16, n % 16);
    lemma_small(a as nat);
    lemma_small(b as nat);
    lemma_small(c as nat);
    lemma_small(d as nat);
    reveal_with_fuel(digits_value, 5);
    assert(s =~= seq![
        small_hex_char(a as nat),
        small_hex_char(b as nat),
        small_hex_char(c as nat),
        small_hex_char(d as nat),
    ]);
    assert(s.drop_last() =~= seq![
        small_hex_char(a as nat),
        small_hex_char(b as nat),
        small_hex_char(c as nat),
    ]);
    assert(s.drop_last().drop_last() =~= seq![small_hex_char(a as nat), small_hex_char(b as nat)]);
    assert(s.drop_last().drop_last().drop_last() =~= seq![small_hex_char(a as nat)]);
    assert(s.drop_last().drop_last().drop_last().drop_last() =~= Seq::<char>::empty());
    assert(n == 4096 * a + 256 * b + 16 * c + d);
    assert(digits_value(s, 16) == n);
}

proof fn lemma_small(d: nat)
    requires
        d < 16,
    ensures
        digit_value(small_hex_char(d)) == d,
        '0' <= small_hex_char(d) <= '9' || 'a' <= small_hex_char(d) <= 'f',
        small_hex_char(d) != '+',
{
}

/// A byte in brackets stands behind its mark with two digits of base 16.
pub proof fn bytes_stand_in_brackets(b: u8, mark: Seq<char>)
    ensures
        bracketed(b, mark).len() == mark.len() + 4,
        bracketed(b, mark)[0] == '[',
        bracketed(b, mark).subrange(1, 1 + mark.len() as int) == mark,
        digit_value(bracketed(b, mark)[1 + mark.len() as int]) * 16 + digit_value(
            bracketed(b, mark)[2 + mark.len() as int],
        ) == b,
        bracketed(b, mark).last() == ']',
{
    reveal_strlit("[");
    reveal_strlit("]");
    assert(bracketed(b, mark).subrange(1, 1 + mark.len() as int) =~= mark);
}

/// A message is its parts end to end: each stands behind those before it.
pub proof fn messages_are_their_parts(parts: Seq<&str>, n: int, k: int)
    requires
        0 <= k < n <= parts.len(),
    ensures
        parts_text(parts, 0).len() == 0,
        parts_text(parts, 1) == parts[0]@,
        parts_text(parts, k).len() + parts[k]@.len() <= parts_text(parts, n).len(),
        parts_text(parts, n).subrange(
            parts_text(parts, k).len() as int,
            (parts_text(parts, k).len() + parts[k]@.len()) as int,
        ) == parts[k]@,
        parts_text(parts, n).take(parts_text(parts, k).len() as int) == parts_text(parts, k),
        k == n - 1 ==> parts_text(parts, n).len() == parts_text(parts, k).len() + parts[k]@.len(),
    decreases n,
{
    assert(parts_text(parts, 1) =~= parts[0]@) by {
        assert(parts_text(parts, 0) =~= Seq::<char>::empty());
    }
    let a = parts_text(parts, k).len() as int;
    let z = a + parts[k]@.len();
    let before = parts_text(parts, n - 1);
    let all = parts_text(parts, n);
    if k < n - 1 {
        messages_are_their_parts(parts, n - 1, k);
        assert(all.subrange(a, z) =~= before.subrange(a, z));
        assert(all.take(a) =~= before.take(a));
    } else {
        assert(all.subrange(a, z) =~= parts[k]@);
        assert(all.take(a) =~= before);
    }
}

/// What errors of the telecontrol protocol say.
pub proof fn words_of_telecontrol_errors(e: Error)
    ensures
        e matches Error::Io(why) ==> error_text(e) == "I/O error: "@ + why@,
        e is ErrConnectTimeout ==> error_text(e) == "connect timeout"@,
        e matches Error::ErrTypeIDNotMatch(t) ==> error_text(e) == "asdu: [type identifier: "@
            + t.name_spec() + "] doesn't match call or time tag"@,
        e matches Error::ErrCmdCause(c) ==> error_text(e) == "asdu: [cause of transmission: "@
            + cause_text(c) + "] for command not standard requirement"@,
        e is ErrInvalidFrame ==> error_text(e) == "Invalid frame"@,
        e matches Error::ErrSendRequest(why) ==> error_text(e) == "SendError "@ + why@,
        e is ErrSendRequestTimeout ==> error_text(e) == "send request timed out"@,
        e is ErrSendRequestCancelled ==> error_text(e) == "send request cancelled"@,
        e is ErrUseClosedConnection || e is ErrNotActive ==> error_text(e) == ""@,
        e is ErrAnyHow ==> error_text(e) == "anyhow error"@,
{
}

/// What is said of a cause of transmission: both of its flags and its name.
pub proof fn words_of_causes(c: CauseOfTransmission)
    ensures
        ({
            let test = if c.test {
                "true"@
            } else {
                "false"@
            };
            let positive = if c.positive {
                "true"@
            } else {
                "false"@
            };
            cause_text(c) == "CauseOfTransmission { test: "@ + test + ", positive: "@ + positive
                + ", cause: "@ + c.cause.name_spec() + " }"@
        }),
{
}

/// What is said of a connection that could not be made.
pub proof fn words_of_failed_connections(f: ConnectFailure, timeout_ms: u64)
    ensures
        f matches ConnectFailure::Refused(why) ==> failure_reason(f, timeout_ms)
            == "connect failed: "@ + why@,
        f is Elapsed ==> failure_reason(f, timeout_ms) == "connect timeout after "@ + decimal(
            timeout_ms as nat,
        ) + " ms"@,
{
}

/// A value that cannot be cast is refused for the reason of the cast: a write
/// as invalid, an action as misconfigured, each in the words of its command.
pub proof fn words_of_refused_commands(e: DriverError, kind: CommandKind, why: Seq<char>, n: u8)
    ensures
        is_refused(e, Purpose::Write, kind, why) ==> (e matches DriverError::ValidationError(x)
            && x@ == complaint(Purpose::Write, kind) + why),
        is_refused(e, Purpose::Action, kind, why) ==> (e matches DriverError::ConfigurationError(x)
            && x@ == complaint(Purpose::Action, kind) + why),
        unknown_type(n) == "Unknown IEC104 type id: "@ + decimal(n as nat),
        complaint(Purpose::Write, CommandKind::Single)
            == "single command expects bool: "@,
        complaint(Purpose::Write, CommandKind::Double)
            == "double command expects u8: "@,
        complaint(Purpose::Write, CommandKind::Step)
            == "step command expects u8: "@,
        complaint(Purpose::Write, CommandKind::Normal)
            == "set point (normal) expects i16-compatible value: "@,
        complaint(Purpose::Write, CommandKind::Scaled)
            == "set point (scaled) expects i16-compatible value: "@,
        complaint(Purpose::Write, CommandKind::Float)
            == "set point (float) expects f32-compatible value: "@,
        complaint(Purpose::Write, CommandKind::Bits)
            == "bits string 32 command expects i32-compatible value: "@,
        complaint(Purpose::Action, CommandKind::Single)
            == "Expected boolean-compatible value for single command: "@,
        complaint(Purpose::Action, CommandKind::Double)
            == "Expected numeric value for double command: "@,
        complaint(Purpose::Action, CommandKind::Step)
            == "Expected numeric value for step command: "@,
        complaint(Purpose::Action, CommandKind::Normal)
            == "Expected numeric value for set point command normal: "@,
        complaint(Purpose::Action, CommandKind::Scaled)
            == "Expected numeric value for set point command scaled: "@,
        complaint(Purpose::Action, CommandKind::Float)
            == "Expected numeric value for set point command float: "@,
        complaint(Purpose::Action, CommandKind::Bits)
            == "Expected numeric value for bits string 32 command: "@,
{
}

/// A cast that failed says why, one that did not says nothing.
pub proof fn failed_casts_say_why(v: CastValue)
    ensures
        v matches CastValue::Truth(r) ==> match r {
            Ok(_) => cast_failure(v) is None,
            Err(why) => cast_failure(v) == Some(why@),
        },
        v matches CastValue::Byte(r) ==> match r {
            Ok(_) => cast_failure(v) is None,
            Err(why) => cast_failure(v) == Some(why@),
        },
        v matches CastValue::Short(r) ==> match r {
            Ok(_) => cast_failure(v) is None,
            Err(why) => cast_failure(v) == Some(why@),
        },
        v matches CastValue::Real(r) ==> match r {
            Ok(_) => cast_failure(v) is None,
            Err(why) => cast_failure(v) == Some(why@),
        },
        v matches CastValue::Word(r) ==> match r {
            Ok(_) => cast_failure(v) is None,
            Err(why) => cast_failure(v) == Some(why@),
        },
{
}

} // verus!
