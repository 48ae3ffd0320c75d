//! Schema of the settings of channels, devices, points and actions, for the
//! configuration interface.

use super::driver::kind_of_command;
use super::extract::is_extracted;
use super::protocol::frame::asdu::TypeID;
use super::types::Iec104ChannelConfig;
use crate::schema::{
    field_views, node_views, ui_text, DriverSchemas, DriverSchemasData, EnumItem, Field, FieldData,
    Node, NodeData, Rules, UiDataType, UiProps, UiValue,
};
use vstd::prelude::*;

verus! {

/// A type of ASDU that can be chosen.
pub open spec fn type_item(t: TypeID, en: &'static str, zh: &'static str) -> EnumItem {
    EnumItem { key: UiValue::Integer(t.code_spec() as i64), label: ui_text(en, zh) }
}

fn new_type_item(t: TypeID, en: &'static str, zh: &'static str) -> (r: EnumItem)
    ensures
        r == type_item(t, en, zh),
{
    EnumItem { key: UiValue::Integer(t.code() as i64), label: ui_text(en, zh) }
}

/// The types that can be chosen for points.
pub open spec fn point_types_spec() -> Seq<EnumItem> {
    seq![
        type_item(TypeID::M_SP_NA_1, "Single Point No Time", "单点无时标"),
        type_item(TypeID::M_SP_TA_1, "Single Point With Time", "单点带时标"),
        type_item(TypeID::M_SP_TB_1, "Single Point With CP56Time2a Time", "单点信息带CP56Time2a时标"),
        type_item(TypeID::M_DP_NA_1, "Double Point No Time", "双点无时标"),
        type_item(TypeID::M_DP_TA_1, "Double Point With Time", "双点带时标"),
        type_item(TypeID::M_DP_TB_1, "Double Point With CP56Time2a Time", "双点信息带CP56Time2a时标"),
        type_item(TypeID::M_ST_NA_1, "Step Position No Time", "步进位置无时标"),
        type_item(TypeID::M_ST_TA_1, "Step Position With Time", "步进位置带时标"),
        type_item(TypeID::M_ST_TB_1, "Step Position With CP56Time2a Time", "步进位置信息带CP56Time2a时标"),
        type_item(TypeID::M_BO_NA_1, "32 Bit String No Time", "32比特串无时标"),
        type_item(TypeID::M_BO_TA_1, "32 Bit String With Time", "32比特串带时标"),
        type_item(TypeID::M_BO_TB_1, "32 Bit String With CP56Time2a Time", "32比特串信息带CP56Time2a时标"),
        type_item(TypeID::M_ME_NA_1, "Measured Value No Time", "归一化值无时标"),
        type_item(TypeID::M_ME_TA_1, "Measured Value With Time", "归一化值带时标"),
        type_item(TypeID::M_ME_TD_1, "Measured Value With CP56Time2a Time", "归一化值带CP56Time2a时标"),
        type_item(TypeID::M_ME_ND_1, "Measured Value No Time (No Quality Description)", "归一化值无时标（无品质描述）"),
        type_item(TypeID::M_ME_NB_1, "Scaled Value No Time", "标度化值无时标"),
        type_item(TypeID::M_ME_TB_1, "Scaled Value With Time", "标度化值带时标"),
        type_item(TypeID::M_ME_TE_1, "Scaled Value With CP56Time2a Time", "标度化值带CP56Time2a时标"),
        type_item(TypeID::M_ME_NC_1, "Short Float No Time", "短浮点数无时标"),
        type_item(TypeID::M_ME_TC_1, "Short Float With Time", "短浮点数带时标"),
        type_item(TypeID::M_ME_TF_1, "Short Float With CP56Time2a Time", "短浮点数带CP56Time2a时标"),
        type_item(TypeID::M_IT_NA_1, "Accumulated Value No Time", "累计量无时标"),
        type_item(TypeID::M_IT_TA_1, "Accumulated Value With Time", "累计量带时标"),
        type_item(TypeID::M_IT_TB_1, "Accumulated Value With CP56Time2a Time", "累计量带CP56Time2a时标"),
    ]
}

fn point_types() -> (r: Vec<EnumItem>)
    ensures
        r@ == point_types_spec(),
{
    let r: Vec<EnumItem> = vec![
        new_type_item(TypeID::M_SP_NA_1, "Single Point No Time", "单点无时标"),
        new_type_item(TypeID::M_SP_TA_1, "Single Point With Time", "单点带时标"),
        new_type_item(TypeID::M_SP_TB_1, "Single Point With CP56Time2a Time", "单点信息带CP56Time2a时标"),
        new_type_item(TypeID::M_DP_NA_1, "Double Point No Time", "双点无时标"),
        new_type_item(TypeID::M_DP_TA_1, "Double Point With Time", "双点带时标"),
        new_type_item(TypeID::M_DP_TB_1, "Double Point With CP56Time2a Time", "双点信息带CP56Time2a时标"),
        new_type_item(TypeID::M_ST_NA_1, "Step Position No Time", "步进位置无时标"),
        new_type_item(TypeID::M_ST_TA_1, "Step Position With Time", "步进位置带时标"),
        new_type_item(TypeID::M_ST_TB_1, "Step Position With CP56Time2a Time", "步进位置信息带CP56Time2a时标"),
        new_type_item(TypeID::M_BO_NA_1, "32 Bit String No Time", "32比特串无时标"),
        new_type_item(TypeID::M_BO_TA_1, "32 Bit String With Time", "32比特串带时标"),
        new_type_item(TypeID::M_BO_TB_1, "32 Bit String With CP56Time2a Time", "32比特串信息带CP56Time2a时标"),
        new_type_item(TypeID::M_ME_NA_1, "Measured Value No Time", "归一化值无时标"),
        new_type_item(TypeID::M_ME_TA_1, "Measured Value With Time", "归一化值带时标"),
        new_type_item(TypeID::M_ME_TD_1, "Measured Value With CP56Time2a Time", "归一化值带CP56Time2a时标"),
        new_type_item(TypeID::M_ME_ND_1, "Measured Value No Time (No Quality Description)", "归一化值无时标（无品质描述）"),
        new_type_item(TypeID::M_ME_NB_1, "Scaled Value No Time", "标度化值无时标"),
        new_type_item(TypeID::M_ME_TB_1, "Scaled Value With Time", "标度化值带时标"),
        new_type_item(TypeID::M_ME_TE_1, "Scaled Value With CP56Time2a Time", "标度化值带CP56Time2a时标"),
        new_type_item(TypeID::M_ME_NC_1, "Short Float No Time", "短浮点数无时标"),
        new_type_item(TypeID::M_ME_TC_1, "Short Float With Time", "短浮点数带时标"),
        new_type_item(TypeID::M_ME_TF_1, "Short Float With CP56Time2a Time", "短浮点数带CP56Time2a时标"),
        new_type_item(TypeID::M_IT_NA_1, "Accumulated Value No Time", "累计量无时标"),
        new_type_item(TypeID::M_IT_TA_1, "Accumulated Value With Time", "累计量带时标"),
        new_type_item(TypeID::M_IT_TB_1, "Accumulated Value With CP56Time2a Time", "累计量带CP56Time2a时标"),
    ];
    assert(r@ =~= point_types_spec());
    r
}

/// The types that can be chosen for parameters of actions.
pub open spec fn command_types_spec() -> Seq<EnumItem> {
    seq![
        type_item(TypeID::C_SC_NA_1, "Single Command No Time", "单点命令无时标"),
        type_item(TypeID::C_SC_TA_1, "Single Command With CP56Time2a Time", "单点命令带CP56Time2a时标"),
        type_item(TypeID::C_DC_NA_1, "Double Command No Time", "双点命令无时标"),
        type_item(TypeID::C_DC_TA_1, "Double Command With CP56Time2a Time", "双点命令带CP56Time2a时标"),
        type_item(TypeID::C_RC_NA_1, "Step Command No Time", "步进命令无时标"),
        type_item(TypeID::C_RC_TA_1, "Step Command With CP56Time2a Time", "步进命令带CP56Time2a时标"),
        type_item(TypeID::C_SE_NA_1, "Scaled Valuue Command No Time", "归一化值命令无时标"),
        type_item(TypeID::C_SE_TA_1, "Scaled Value Command With CP56Time2a Time", "归一化值命令带CP56Time2a时标"),
        type_item(TypeID::C_SE_NB_1, "Scaled Value Command No Time", "标度化值命令无时标"),
        type_item(TypeID::C_SE_TB_1, "Scaled Value Command With CP56Time2a Time", "标度化值命令带CP56Time2a时标"),
        type_item(TypeID::C_SE_NC_1, "Short Float Command No Time", "短浮点数命令无时标"),
        type_item(TypeID::C_SE_TC_1, "Short Float Command With CP56Time2a Time", "短浮点数命令带CP56Time2a时标"),
        type_item(TypeID::C_BO_NA_1, "32 Bit String Command No Time", "32比特串命令无时标"),
        type_item(TypeID::C_BO_TA_1, "32 Bit String Command With CP56Time2a Time", "32比特串命令带CP56Time2a时标"),
    ]
}

fn command_types() -> (r: Vec<EnumItem>)
    ensures
        r@ == command_types_spec(),
{
    let r: Vec<EnumItem> = vec![
        new_type_item(TypeID::C_SC_NA_1, "Single Command No Time", "单点命令无时标"),
        new_type_item(TypeID::C_SC_TA_1, "Single Command With CP56Time2a Time", "单点命令带CP56Time2a时标"),
        new_type_item(TypeID::C_DC_NA_1, "Double Command No Time", "双点命令无时标"),
        new_type_item(TypeID::C_DC_TA_1, "Double Command With CP56Time2a Time", "双点命令带CP56Time2a时标"),
        new_type_item(TypeID::C_RC_NA_1, "Step Command No Time", "步进命令无时标"),
        new_type_item(TypeID::C_RC_TA_1, "Step Command With CP56Time2a Time", "步进命令带CP56Time2a时标"),
        new_type_item(TypeID::C_SE_NA_1, "Scaled Valuue Command No Time", "归一化值命令无时标"),
        new_type_item(TypeID::C_SE_TA_1, "Scaled Value Command With CP56Time2a Time", "归一化值命令带CP56Time2a时标"),
        new_type_item(TypeID::C_SE_NB_1, "Scaled Value Command No Time", "标度化值命令无时标"),
        new_type_item(TypeID::C_SE_TB_1, "Scaled Value Command With CP56Time2a Time", "标度化值命令带CP56Time2a时标"),
        new_type_item(TypeID::C_SE_NC_1, "Short Float Command No Time", "短浮点数命令无时标"),
        new_type_item(TypeID::C_SE_TC_1, "Short Float Command With CP56Time2a Time", "短浮点数命令带CP56Time2a时标"),
        new_type_item(TypeID::C_BO_NA_1, "32 Bit String Command No Time", "32比特串命令无时标"),
        new_type_item(TypeID::C_BO_TA_1, "32 Bit String Command With CP56Time2a Time", "32比特串命令带CP56Time2a时标"),
    ];
    assert(r@ =~= command_types_spec());
    r
}

/// Advanced settings of channels.
pub open spec fn advanced_fields_spec() -> Seq<FieldData> {
    seq![
        FieldData {
            path: "t0Ms",
            label: ui_text("t0", "t0"),
            data_type: UiDataType::Integer,
            items: Seq::empty(),
            default_value: Some(UiValue::Integer(10000)),
            order: 3,
            ui: Some(UiProps { col_span: Some(1), help: Some(ui_text("Unit：Milliseconds", "单位：毫秒")) }),
            rules: Some(
                Rules {
                    required: None,
                    pattern: None,
                    min: Some((100, ui_text("Min 100ms", "至少 100ms"))),
                    max: None,
                },
            ),
        },
        FieldData {
            path: "t1Ms",
            label: ui_text("t1", "t1"),
            data_type: UiDataType::Integer,
            items: Seq::empty(),
            default_value: Some(UiValue::Integer(15000)),
            order: 4,
            ui: Some(UiProps { col_span: Some(1), help: Some(ui_text("Unit：Milliseconds", "单位：毫秒")) }),
            rules: Some(
                Rules {
                    required: None,
                    pattern: None,
                    min: Some((100, ui_text("Min 100ms", "至少 100ms"))),
                    max: None,
                },
            ),
        },
        FieldData {
            path: "t2Ms",
            label: ui_text("t2", "t2"),
            data_type: UiDataType::Integer,
            items: Seq::empty(),
            default_value: Some(UiValue::Integer(10000)),
            order: 5,
            ui: Some(UiProps { col_span: Some(1), help: Some(ui_text("Unit：Milliseconds", "单位：毫秒")) }),
            rules: Some(
                Rules {
                    required: None,
                    pattern: None,
                    min: Some((100, ui_text("Min 100ms", "至少 100ms"))),
                    max: None,
                },
            ),
        },
        FieldData {
            path: "t3Ms",
            label: ui_text("t3", "t3"),
            data_type: UiDataType::Integer,
            items: Seq::empty(),
            default_value: Some(UiValue::Integer(20000)),
            order: 6,
            ui: Some(UiProps { col_span: Some(1), help: Some(ui_text("Unit：Milliseconds", "单位：毫秒")) }),
            rules: Some(
                Rules {
                    required: None,
                    pattern: None,
                    min: Some((100, ui_text("Min 100ms", "至少 100ms"))),
                    max: None,
                },
            ),
        },
        FieldData {
            path: "kWindow",
            label: ui_text("K Window", "K 窗口"),
            data_type: UiDataType::Integer,
            items: Seq::empty(),
            default_value: Some(UiValue::Integer(12)),
            order: 7,
            ui: Some(UiProps { col_span: Some(1), help: None }),
            rules: Some(
                Rules {
                    required: None,
                    pattern: None,
                    min: Some((1, ui_text("Min 1", "最小为 1"))),
                    max: None,
                },
            ),
        },
        FieldData {
            path: "wThreshold",
            label: ui_text("W Threshold", "W 阈值"),
            data_type: UiDataType::Integer,
            items: Seq::empty(),
            default_value: Some(UiValue::Integer(8)),
            order: 8,
            ui: Some(UiProps { col_span: Some(1), help: None }),
            rules: Some(
                Rules {
                    required: None,
                    pattern: None,
                    min: Some((1, ui_text("Min 1", "最小为 1"))),
                    max: None,
                },
            ),
        },
        FieldData {
            path: "tcpNodelay",
            label: ui_text("TCP NoDelay", "禁用Nagle"),
            data_type: UiDataType::Boolean,
            items: Seq::empty(),
            default_value: Some(UiValue::Boolean(true)),
            order: 9,
            ui: Some(UiProps { col_span: Some(1), help: None }),
            rules: None,
        },
        FieldData {
            path: "sendQueueCapacity",
            label: ui_text("Send Queue Capacity", "发送队列容量"),
            data_type: UiDataType::Integer,
            items: Seq::empty(),
            default_value: Some(UiValue::Integer(1024)),
            order: 10,
            ui: Some(UiProps { col_span: Some(1), help: None }),
            rules: Some(
                Rules {
                    required: None,
                    pattern: None,
                    min: Some((1, ui_text("Min 1", "最小为 1"))),
                    max: None,
                },
            ),
        },
        FieldData {
            path: "maxPendingAsduBytes",
            label: ui_text("Max Pending ASDU Bytes", "待处理字节上限"),
            data_type: UiDataType::Integer,
            items: Seq::empty(),
            default_value: Some(UiValue::Integer(1048576)),
            order: 11,
            ui: Some(UiProps { col_span: Some(1), help: None }),
            rules: Some(
                Rules {
                    required: None,
                    pattern: None,
                    min: Some((1024, ui_text("Min 1024", "至少 1024"))),
                    max: None,
                },
            ),
        },
        FieldData {
            path: "discardLowPriorityWhenWindowFull",
            label: ui_text("Discard Low Priority When Window Full", "满窗口丢弃低优先级"),
            data_type: UiDataType::Boolean,
            items: Seq::empty(),
            default_value: Some(UiValue::Boolean(true)),
            order: 12,
            ui: Some(UiProps { col_span: Some(1), help: None }),
            rules: None,
        },
        FieldData {
            path: "mergeLowPriority",
            label: ui_text("Merge Low Priority", "合并低优先级"),
            data_type: UiDataType::Boolean,
            items: Seq::empty(),
            default_value: Some(UiValue::Boolean(true)),
            order: 13,
            ui: Some(UiProps { col_span: Some(1), help: None }),
            rules: None,
        },
        FieldData {
            path: "lowPrioFlushMaxAgeMs",
            label: ui_text("Low Prio Flush Max Age", "低优先级刷新最大延迟"),
            data_type: UiDataType::Integer,
            items: Seq::empty(),
            default_value: Some(UiValue::Integer(2000)),
            order: 14,
            ui: Some(UiProps { col_span: Some(1), help: Some(ui_text("Unit：Milliseconds", "单位：毫秒")) }),
            rules: Some(
                Rules {
                    required: None,
                    pattern: None,
                    min: Some((0, ui_text("Min 0", "最小为 0"))),
                    max: None,
                },
            ),
        },
        FieldData {
            path: "startupQoi",
            label: ui_text("Startup QOI", "启动QOI"),
            data_type: UiDataType::Integer,
            items: Seq::empty(),
            default_value: Some(UiValue::Integer(20)),
            order: 17,
            ui: Some(UiProps { col_span: Some(1), help: None }),
            rules: Some(
                Rules {
                    required: None,
                    pattern: None,
                    min: Some((0, ui_text("Min 0", "最小为 0"))),
                    max: Some((255, ui_text("Max 255", "最大为 255"))),
                },
            ),
        },
        FieldData {
            path: "startupQcc",
            label: ui_text("Startup QCC", "启动QCC"),
            data_type: UiDataType::Integer,
            items: Seq::empty(),
            default_value: Some(UiValue::Integer(5)),
            order: 18,
            ui: Some(UiProps { col_span: Some(1), help: None }),
            rules: Some(
                Rules {
                    required: None,
                    pattern: None,
                    min: Some((0, ui_text("Min 0", "最小为 0"))),
                    max: Some((255, ui_text("Max 255", "最大为 255"))),
                },
            ),
        },
    ]
}

fn advanced_fields() -> (r: Vec<Field>)
    ensures
        field_views(r@) == advanced_fields_spec(),
{
    let r: Vec<Field> = vec![
        Field {
            path: "t0Ms",
            label: ui_text("t0", "t0"),
            data_type: UiDataType::Integer,
            items: Vec::new(),
            default_value: Some(UiValue::Integer(10000)),
            order: 3,
            ui: Some(UiProps { col_span: Some(1), help: Some(ui_text("Unit：Milliseconds", "单位：毫秒")) }),
            rules: Some(
                Rules {
                    required: None,
                    pattern: None,
                    min: Some((100, ui_text("Min 100ms", "至少 100ms"))),
                    max: None,
                },
            ),
        },
        Field {
            path: "t1Ms",
            label: ui_text("t1", "t1"),
            data_type: UiDataType::Integer,
            items: Vec::new(),
            default_value: Some(UiValue::Integer(15000)),
            order: 4,
            ui: Some(UiProps { col_span: Some(1), help: Some(ui_text("Unit：Milliseconds", "单位：毫秒")) }),
            rules: Some(
                Rules {
                    required: None,
                    pattern: None,
                    min: Some((100, ui_text("Min 100ms", "至少 100ms"))),
                    max: None,
                },
            ),
        },
        Field {
            path: "t2Ms",
            label: ui_text("t2", "t2"),
            data_type: UiDataType::Integer,
            items: Vec::new(),
            default_value: Some(UiValue::Integer(10000)),
            order: 5,
            ui: Some(UiProps { col_span: Some(1), help: Some(ui_text("Unit：Milliseconds", "单位：毫秒")) }),
            rules: Some(
                Rules {
                    required: None,
                    pattern: None,
                    min: Some((100, ui_text("Min 100ms", "至少 100ms"))),
                    max: None,
                },
            ),
        },
        Field {
            path: "t3Ms",
            label: ui_text("t3", "t3"),
            data_type: UiDataType::Integer,
            items: Vec::new(),
            default_value: Some(UiValue::Integer(20000)),
            order: 6,
            ui: Some(UiProps { col_span: Some(1), help: Some(ui_text("Unit：Milliseconds", "单位：毫秒")) }),
            rules: Some(
                Rules {
                    required: None,
                    pattern: None,
                    min: Some((100, ui_text("Min 100ms", "至少 100ms"))),
                    max: None,
                },
            ),
        },
        Field {
            path: "kWindow",
            label: ui_text("K Window", "K 窗口"),
            data_type: UiDataType::Integer,
            items: Vec::new(),
            default_value: Some(UiValue::Integer(12)),
            order: 7,
            ui: Some(UiProps { col_span: Some(1), help: None }),
            rules: Some(
                Rules {
                    required: None,
                    pattern: None,
                    min: Some((1, ui_text("Min 1", "最小为 1"))),
                    max: None,
                },
            ),
        },
        Field {
            path: "wThreshold",
            label: ui_text("W Threshold", "W 阈值"),
            data_type: UiDataType::Integer,
            items: Vec::new(),
            default_value: Some(UiValue::Integer(8)),
            order: 8,
            ui: Some(UiProps { col_span: Some(1), help: None }),
            rules: Some(
                Rules {
                    required: None,
                    pattern: None,
                    min: Some((1, ui_text("Min 1", "最小为 1"))),
                    max: None,
                },
            ),
        },
        Field {
            path: "tcpNodelay",
            label: ui_text("TCP NoDelay", "禁用Nagle"),
            data_type: UiDataType::Boolean,
            items: Vec::new(),
            default_value: Some(UiValue::Boolean(true)),
            order: 9,
            ui: Some(UiProps { col_span: Some(1), help: None }),
            rules: None,
        },
        Field {
            path: "sendQueueCapacity",
            label: ui_text("Send Queue Capacity", "发送队列容量"),
            data_type: UiDataType::Integer,
            items: Vec::new(),
            default_value: Some(UiValue::Integer(1024)),
            order: 10,
            ui: Some(UiProps { col_span: Some(1), help: None }),
            rules: Some(
                Rules {
                    required: None,
                    pattern: None,
                    min: Some((1, ui_text("Min 1", "最小为 1"))),
                    max: None,
                },
            ),
        },
        Field {
            path: "maxPendingAsduBytes",
            label: ui_text("Max Pending ASDU Bytes", "待处理字节上限"),
            data_type: UiDataType::Integer,
            items: Vec::new(),
            default_value: Some(UiValue::Integer(1048576)),
            order: 11,
            ui: Some(UiProps { col_span: Some(1), help: None }),
            rules: Some(
                Rules {
                    required: None,
                    pattern: None,
                    min: Some((1024, ui_text("Min 1024", "至少 1024"))),
                    max: None,
                },
            ),
        },
        Field {
            path: "discardLowPriorityWhenWindowFull",
            label: ui_text("Discard Low Priority When Window Full", "满窗口丢弃低优先级"),
            data_type: UiDataType::Boolean,
            items: Vec::new(),
            default_value: Some(UiValue::Boolean(true)),
            order: 12,
            ui: Some(UiProps { col_span: Some(1), help: None }),
            rules: None,
        },
        Field {
            path: "mergeLowPriority",
            label: ui_text("Merge Low Priority", "合并低优先级"),
            data_type: UiDataType::Boolean,
            items: Vec::new(),
            default_value: Some(UiValue::Boolean(true)),
            order: 13,
            ui: Some(UiProps { col_span: Some(1), help: None }),
            rules: None,
        },
        Field {
            path: "lowPrioFlushMaxAgeMs",
            label: ui_text("Low Prio Flush Max Age", "低优先级刷新最大延迟"),
            data_type: UiDataType::Integer,
            items: Vec::new(),
            default_value: Some(UiValue::Integer(2000)),
            order: 14,
            ui: Some(UiProps { col_span: Some(1), help: Some(ui_text("Unit：Milliseconds", "单位：毫秒")) }),
            rules: Some(
                Rules {
                    required: None,
                    pattern: None,
                    min: Some((0, ui_text("Min 0", "最小为 0"))),
                    max: None,
                },
            ),
        },
        Field {
            path: "startupQoi",
            label: ui_text("Startup QOI", "启动QOI"),
            data_type: UiDataType::Integer,
            items: Vec::new(),
            default_value: Some(UiValue::Integer(20)),
            order: 17,
            ui: Some(UiProps { col_span: Some(1), help: None }),
            rules: Some(
                Rules {
                    required: None,
                    pattern: None,
                    min: Some((0, ui_text("Min 0", "最小为 0"))),
                    max: Some((255, ui_text("Max 255", "最大为 255"))),
                },
            ),
        },
        Field {
            path: "startupQcc",
            label: ui_text("Startup QCC", "启动QCC"),
            data_type: UiDataType::Integer,
            items: Vec::new(),
            default_value: Some(UiValue::Integer(5)),
            order: 18,
            ui: Some(UiProps { col_span: Some(1), help: None }),
            rules: Some(
                Rules {
                    required: None,
                    pattern: None,
                    min: Some((0, ui_text("Min 0", "最小为 0"))),
                    max: Some((255, ui_text("Max 255", "最大为 255"))),
                },
            ),
        },
    ];
    proof {
        assert(r@[0].items@ =~= Seq::empty());
        assert(r@[1].items@ =~= Seq::empty());
        assert(r@[2].items@ =~= Seq::empty());
        assert(r@[3].items@ =~= Seq::empty());
        assert(r@[4].items@ =~= Seq::empty());
        assert(r@[5].items@ =~= Seq::empty());
        assert(r@[6].items@ =~= Seq::empty());
        assert(r@[7].items@ =~= Seq::empty());
        assert(r@[8].items@ =~= Seq::empty());
        assert(r@[9].items@ =~= Seq::empty());
        assert(r@[10].items@ =~= Seq::empty());
        assert(r@[11].items@ =~= Seq::empty());
        assert(r@[12].items@ =~= Seq::empty());
        assert(r@[13].items@ =~= Seq::empty());
        assert(field_views(r@) =~= advanced_fields_spec());
    }
    r
}

/// The settings of channels.
pub open spec fn channel_schema() -> Seq<NodeData> {
    seq![
        NodeData::Field(
            FieldData {
                path: "host",
                label: ui_text("Host", "主机"),
                data_type: UiDataType::String,
                items: Seq::empty(),
                default_value: None,
                order: 1,
                ui: None,
                rules: Some(
                    Rules {
                        required: Some(ui_text("Host is required", "主机是必填项")),
                        pattern: Some(
                            ("^(?:(?:[A-Za-z0-9](?:[A-Za-z0-9-]{0,61}[A-Za-z0-9])?)(?:\\.(?:[A-Za-z0-9](?:[A-Za-z0-9-]{0,61}[A-Za-z0-9])?))*|(?:(?:25[0-5]|2[0-4]\\d|1\\d\\d|[1-9]?\\d)\\.){3}(?:25[0-5]|2[0-4]\\d|1\\d\\d|[1-9]?\\d))$", ui_text("Enter a valid IPv4 address or hostname (no schema/port)", "请输入有效的 IPv4 或主机名（不含协议和端口）")),
                        ),
                        min: None,
                        max: None,
                    },
                ),
            },
        ),
        NodeData::Field(
            FieldData {
                path: "port",
                label: ui_text("Port", "端口"),
                data_type: UiDataType::Integer,
                items: Seq::empty(),
                default_value: Some(UiValue::Integer(2404)),
                order: 2,
                ui: None,
                rules: Some(
                    Rules {
                        required: Some(ui_text("Port is required", "端口是必填项")),
                        pattern: None,
                        min: Some((1, ui_text("Port must be > 0", "端口必须大于0"))),
                        max: Some((65535, ui_text("Port must be < 65536", "端口必须小于65536"))),
                    },
                ),
            },
        ),
        NodeData::Group {
            id: "advanced",
            label: ui_text("Advanced Settings", "高级设置"),
            collapsible: true,
            order: 3,
            fields: advanced_fields_spec(),
        },
    ]
}

/// The settings of channels.
pub fn build_channel_nodes() -> (r: Vec<Node>)
    ensures
        node_views(r@) == channel_schema(),
{
    let r: Vec<Node> = vec![
        Node::Field(
            Field {
                path: "host",
                label: ui_text("Host", "主机"),
                data_type: UiDataType::String,
                items: Vec::new(),
                default_value: None,
                order: 1,
                ui: None,
                rules: Some(
                    Rules {
                        required: Some(ui_text("Host is required", "主机是必填项")),
                        pattern: Some(
                            ("^(?:(?:[A-Za-z0-9](?:[A-Za-z0-9-]{0,61}[A-Za-z0-9])?)(?:\\.(?:[A-Za-z0-9](?:[A-Za-z0-9-]{0,61}[A-Za-z0-9])?))*|(?:(?:25[0-5]|2[0-4]\\d|1\\d\\d|[1-9]?\\d)\\.){3}(?:25[0-5]|2[0-4]\\d|1\\d\\d|[1-9]?\\d))$", ui_text("Enter a valid IPv4 address or hostname (no schema/port)", "请输入有效的 IPv4 或主机名（不含协议和端口）")),
                        ),
                        min: None,
                        max: None,
                    },
                ),
            },
        ),
        Node::Field(
            Field {
                path: "port",
                label: ui_text("Port", "端口"),
                data_type: UiDataType::Integer,
                items: Vec::new(),
                default_value: Some(UiValue::Integer(2404)),
                order: 2,
                ui: None,
                rules: Some(
                    Rules {
                        required: Some(ui_text("Port is required", "端口是必填项")),
                        pattern: None,
                        min: Some((1, ui_text("Port must be > 0", "端口必须大于0"))),
                        max: Some((65535, ui_text("Port must be < 65536", "端口必须小于65536"))),
                    },
                ),
            },
        ),
        Node::Group {
            id: "advanced",
            label: ui_text("Advanced Settings", "高级设置"),
            collapsible: true,
            order: 3,
            fields: advanced_fields(),
        },
    ];
    proof {
        assert(node_views(r@)[0] == r@[0]@);
        assert(node_views(r@)[1] == r@[1]@);
        assert(node_views(r@)[2] == r@[2]@);
        assert(r@[0]->Field_0.items@ =~= Seq::empty());
        assert(r@[1]->Field_0.items@ =~= Seq::empty());
        assert(node_views(r@) =~= channel_schema());
    }
    r
}

/// The settings of devices.
pub open spec fn device_schema() -> Seq<NodeData> {
    seq![
        NodeData::Field(
            FieldData {
                path: "ca",
                label: ui_text("Common Address", "公共地址"),
                data_type: UiDataType::Integer,
                items: Seq::empty(),
                default_value: None,
                order: 1,
                ui: None,
                rules: Some(
                    Rules {
                        required: Some(ui_text("CA is required", "公共地址是必填项")),
                        pattern: None,
                        min: Some((1, ui_text("Min 1", "最小为 1"))),
                        max: Some((65535, ui_text("Max 65535", "最大为 65535"))),
                    },
                ),
            },
        ),
    ]
}

/// The settings of devices.
pub fn build_device_nodes() -> (r: Vec<Node>)
    ensures
        node_views(r@) == device_schema(),
{
    let r: Vec<Node> = vec![
        Node::Field(
            Field {
                path: "ca",
                label: ui_text("Common Address", "公共地址"),
                data_type: UiDataType::Integer,
                items: Vec::new(),
                default_value: None,
                order: 1,
                ui: None,
                rules: Some(
                    Rules {
                        required: Some(ui_text("CA is required", "公共地址是必填项")),
                        pattern: None,
                        min: Some((1, ui_text("Min 1", "最小为 1"))),
                        max: Some((65535, ui_text("Max 65535", "最大为 65535"))),
                    },
                ),
            },
        ),
    ];
    proof {
        assert(node_views(r@)[0] == r@[0]@);
        assert(r@[0]->Field_0.items@ =~= Seq::empty());
        assert(node_views(r@) =~= device_schema());
    }
    r
}

/// The settings of points.
pub open spec fn point_schema() -> Seq<NodeData> {
    seq![
        NodeData::Field(
            FieldData {
                path: "ioa",
                label: ui_text("IOA", "IOA"),
                data_type: UiDataType::Integer,
                items: Seq::empty(),
                default_value: None,
                order: 1,
                ui: None,
                rules: Some(
                    Rules {
                        required: Some(ui_text("IOA is required", "IOA 是必填项")),
                        pattern: None,
                        min: Some((0, ui_text("Min 0", "最小为 0"))),
                        max: Some((65535, ui_text("Max 65535", "最大为 65535"))),
                    },
                ),
            },
        ),
        NodeData::Field(
            FieldData {
                path: "typeId",
                label: ui_text("ASDU Type ID", "ASDU类型"),
                data_type: UiDataType::Enum,
                items: point_types_spec(),
                default_value: None,
                order: 2,
                ui: None,
                rules: Some(
                    Rules {
                        required: Some(ui_text("Type ID is required", "类型 ID 是必填项")),
                        pattern: None,
                        min: None,
                        max: None,
                    },
                ),
            },
        ),
    ]
}

/// The settings of points.
pub fn build_point_nodes() -> (r: Vec<Node>)
    ensures
        node_views(r@) == point_schema(),
{
    let r: Vec<Node> = vec![
        Node::Field(
            Field {
                path: "ioa",
                label: ui_text("IOA", "IOA"),
                data_type: UiDataType::Integer,
                items: Vec::new(),
                default_value: None,
                order: 1,
                ui: None,
                rules: Some(
                    Rules {
                        required: Some(ui_text("IOA is required", "IOA 是必填项")),
                        pattern: None,
                        min: Some((0, ui_text("Min 0", "最小为 0"))),
                        max: Some((65535, ui_text("Max 65535", "最大为 65535"))),
                    },
                ),
            },
        ),
        Node::Field(
            Field {
                path: "typeId",
                label: ui_text("ASDU Type ID", "ASDU类型"),
                data_type: UiDataType::Enum,
                items: point_types(),
                default_value: None,
                order: 2,
                ui: None,
                rules: Some(
                    Rules {
                        required: Some(ui_text("Type ID is required", "类型 ID 是必填项")),
                        pattern: None,
                        min: None,
                        max: None,
                    },
                ),
            },
        ),
    ];
    proof {
        assert(node_views(r@)[0] == r@[0]@);
        assert(node_views(r@)[1] == r@[1]@);
        assert(r@[0]->Field_0.items@ =~= Seq::empty());
        assert(node_views(r@) =~= point_schema());
    }
    r
}

/// The settings of parameters of actions.
pub open spec fn action_schema() -> Seq<NodeData> {
    seq![
        NodeData::Field(
            FieldData {
                path: "ioa",
                label: ui_text("IOA", "IOA"),
                data_type: UiDataType::Integer,
                items: Seq::empty(),
                default_value: None,
                order: 1,
                ui: None,
                rules: Some(
                    Rules {
                        required: Some(ui_text("IOA is required", "IOA 是必填项")),
                        pattern: None,
                        min: Some((0, ui_text("Min 0", "最小为 0"))),
                        max: Some((65535, ui_text("Max 65535", "最大为 65535"))),
                    },
                ),
            },
        ),
        NodeData::Field(
            FieldData {
                path: "typeId",
                label: ui_text("ASDU Type ID", "ASDU类型"),
                data_type: UiDataType::Enum,
                items: command_types_spec(),
                default_value: None,
                order: 2,
                ui: None,
                rules: Some(
                    Rules {
                        required: Some(ui_text("Type ID is required", "类型 ID 是必填项")),
                        pattern: None,
                        min: None,
                        max: None,
                    },
                ),
            },
        ),
    ]
}

/// The settings of parameters of actions.
pub fn build_action_nodes() -> (r: Vec<Node>)
    ensures
        node_views(r@) == action_schema(),
{
    let r: Vec<Node> = vec![
        Node::Field(
            Field {
                path: "ioa",
                label: ui_text("IOA", "IOA"),
                data_type: UiDataType::Integer,
                items: Vec::new(),
                default_value: None,
                order: 1,
                ui: None,
                rules: Some(
                    Rules {
                        required: Some(ui_text("IOA is required", "IOA 是必填项")),
                        pattern: None,
                        min: Some((0, ui_text("Min 0", "最小为 0"))),
                        max: Some((65535, ui_text("Max 65535", "最大为 65535"))),
                    },
                ),
            },
        ),
        Node::Field(
            Field {
                path: "typeId",
                label: ui_text("ASDU Type ID", "ASDU类型"),
                data_type: UiDataType::Enum,
                items: command_types(),
                default_value: None,
                order: 2,
                ui: None,
                rules: Some(
                    Rules {
                        required: Some(ui_text("Type ID is required", "类型 ID 是必填项")),
                        pattern: None,
                        min: None,
                        max: None,
                    },
                ),
            },
        ),
    ];
    proof {
        assert(node_views(r@)[0] == r@[0]@);
        assert(node_views(r@)[1] == r@[1]@);
        assert(r@[0]->Field_0.items@ =~= Seq::empty());
        assert(node_views(r@) =~= action_schema());
    }
    r
}

/// The settings of the driver.
pub open spec fn schemas() -> DriverSchemasData {
    DriverSchemasData {
        channel: channel_schema(),
        device: device_schema(),
        point: point_schema(),
        action: action_schema(),
    }
}

/// The settings of the driver.
pub fn build_metadata() -> (r: DriverSchemas)
    ensures
        r@ == schemas(),
{
    DriverSchemas {
        channel: build_channel_nodes(),
        device: build_device_nodes(),
        point: build_point_nodes(),
        action: build_action_nodes(),
    }
}

/// What the interface offers as the default of a setting is what the setting
/// is where the configuration names none.
pub proof fn schema_defaults_are_the_defaults(c: Iec104ChannelConfig, host: Seq<char>)
    requires
        c.is_default_for(host),
    ensures
        ({
            let advanced = advanced_fields_spec();
            &&& (channel_schema()[1] matches NodeData::Field(f) && f.default_value == Some(
                UiValue::Integer(c.port as i64),
            ))
            &&& (channel_schema()[2] matches NodeData::Group { fields, .. } && fields == advanced)
            &&& advanced[0].default_value == Some(UiValue::Integer(c.t0_ms as i64))
            &&& advanced[1].default_value == Some(UiValue::Integer(c.t1_ms as i64))
            &&& advanced[2].default_value == Some(UiValue::Integer(c.t2_ms as i64))
            &&& advanced[3].default_value == Some(UiValue::Integer(c.t3_ms as i64))
            &&& advanced[4].default_value == Some(UiValue::Integer(c.k_window as i64))
            &&& advanced[5].default_value == Some(UiValue::Integer(c.w_threshold as i64))
            &&& advanced[6].default_value == Some(UiValue::Boolean(c.tcp_nodelay))
            &&& advanced[7].default_value == Some(UiValue::Integer(c.send_queue_capacity as i64))
            &&& advanced[8].default_value == Some(
                UiValue::Integer(c.max_pending_asdu_bytes as i64),
            )
            &&& advanced[9].default_value == Some(
                UiValue::Boolean(c.discard_low_priority_when_window_full),
            )
            &&& advanced[10].default_value == Some(UiValue::Boolean(c.merge_low_priority))
            &&& advanced[11].default_value == Some(
                UiValue::Integer(c.low_prio_flush_max_age_ms as i64),
            )
            &&& advanced[12].default_value == Some(UiValue::Integer(c.startup_qoi as i64))
            &&& advanced[13].default_value == Some(UiValue::Integer(c.startup_qcc as i64))
        }),
{
}

/// A type number that can be chosen stands for this type.
pub open spec fn offers(item: EnumItem, t: TypeID) -> bool {
    item.key == UiValue::Integer(t.code_spec() as i64)
}

/// Every type that the interface offers for points is one whose values are
/// collected, and every type that it offers for actions is a command.
pub proof fn offered_types_are_supported(i: int)
    ensures
        0 <= i < point_types_spec().len() ==> exists|t: TypeID| #[trigger]
            offers(point_types_spec()[i], t) && is_extracted(t),
        0 <= i < command_types_spec().len() ==> exists|t: TypeID| #[trigger]
            offers(command_types_spec()[i], t) && kind_of_command(t) is Some,
{
    let p = seq![
        TypeID::M_SP_NA_1,
        TypeID::M_SP_TA_1,
        TypeID::M_SP_TB_1,
        TypeID::M_DP_NA_1,
        TypeID::M_DP_TA_1,
        TypeID::M_DP_TB_1,
        TypeID::M_ST_NA_1,
        TypeID::M_ST_TA_1,
        TypeID::M_ST_TB_1,
        TypeID::M_BO_NA_1,
        TypeID::M_BO_TA_1,
        TypeID::M_BO_TB_1,
        TypeID::M_ME_NA_1,
        TypeID::M_ME_TA_1,
        TypeID::M_ME_TD_1,
        TypeID::M_ME_ND_1,
        TypeID::M_ME_NB_1,
        TypeID::M_ME_TB_1,
        TypeID::M_ME_TE_1,
        TypeID::M_ME_NC_1,
        TypeID::M_ME_TC_1,
        TypeID::M_ME_TF_1,
        TypeID::M_IT_NA_1,
        TypeID::M_IT_TA_1,
        TypeID::M_IT_TB_1,
    ];
    let c = seq![
        TypeID::C_SC_NA_1,
        TypeID::C_SC_TA_1,
        TypeID::C_DC_NA_1,
        TypeID::C_DC_TA_1,
        TypeID::C_RC_NA_1,
        TypeID::C_RC_TA_1,
        TypeID::C_SE_NA_1,
        TypeID::C_SE_TA_1,
        TypeID::C_SE_NB_1,
        TypeID::C_SE_TB_1,
        TypeID::C_SE_NC_1,
        TypeID::C_SE_TC_1,
        TypeID::C_BO_NA_1,
        TypeID::C_BO_TA_1,
    ];
    if 0 <= i < point_types_spec().len() {
        assert(offers(point_types_spec()[i], p[i]));
    }
    if 0 <= i < command_types_spec().len() {
        assert(offers(command_types_spec()[i], c[i]));
    }
}

} // verus!
