//! Schema of the settings of channels, points and actions, for the
//! configuration interface.

use super::handle::{at_least_one, planner_limits};
use super::types::McChannelConfig;
use crate::schema::{
    node_views, ui_text, DriverSchemas, DriverSchemasData, EnumItem, Field, FieldData, Node,
    NodeData, Rules, UiDataType, UiValue,
};
use vstd::prelude::*;

verus! {

/// The series that can be chosen.
pub open spec fn series_items_spec() -> Seq<EnumItem> {
    seq![
        EnumItem { key: UiValue::Text("a"), label: ui_text("A", "A 系列") },
        EnumItem { key: UiValue::Text("qnA"), label: ui_text("QnA", "QnA 系列") },
        EnumItem { key: UiValue::Text("qL"), label: ui_text("Q/L", "Q/L 系列") },
        EnumItem { key: UiValue::Text("iQR"), label: ui_text("iQ-R", "iQ-R 系列") },
    ]
}

fn series_items() -> (r: Vec<EnumItem>)
    ensures
        r@ == series_items_spec(),
{
    let r: Vec<EnumItem> = vec![
        EnumItem { key: UiValue::Text("a"), label: ui_text("A", "A 系列") },
        EnumItem { key: UiValue::Text("qnA"), label: ui_text("QnA", "QnA 系列") },
        EnumItem { key: UiValue::Text("qL"), label: ui_text("Q/L", "Q/L 系列") },
        EnumItem { key: UiValue::Text("iQR"), label: ui_text("iQ-R", "iQ-R 系列") },
    ];
    assert(r@ =~= series_items_spec());
    r
}

/// The settings of channels.
pub open spec fn channel_schema() -> Seq<NodeData> {
    seq![
        NodeData::Field(
            FieldData {
                path: "host",
                label: ui_text("Host", "主机"),
                data_type: UiDataType::String,
                items: Seq::empty(),
                default_value: None,
                order: 1,
                ui: None,
                rules: Some(
                    Rules {
                        required: Some(ui_text("Host is required", "主机是必填项")),
                        pattern: Some(
                            ("^(?:(?:[A-Za-z0-9](?:[A-Za-z0-9-]{0,61}[A-Za-z0-9])?)(?:\\.(?:[A-Za-z0-9](?:[A-Za-z0-9-]{0,61}[A-Za-z0-9])?))*|(?:(?:25[0-5]|2[0-4]\\d|1\\d\\d|[1-9]?\\d)\\.){3}(?:25[0-5]|2[0-4]\\d|1\\d\\d|[1-9]?\\d))$", ui_text("Enter a valid IPv4 address or hostname (no schema/port)", "请输入有效的 IPv4 或主机名（不含协议和端口）")),
                        ),
                        min: None,
                        max: None,
                    },
                ),
            },
        ),
        NodeData::Field(
            FieldData {
                path: "port",
                label: ui_text("Port", "端口"),
                data_type: UiDataType::Integer,
                items: Seq::empty(),
                default_value: Some(UiValue::Integer(5001)),
                order: 2,
                ui: None,
                rules: Some(
                    Rules {
                        required: Some(ui_text("Port is required", "端口是必填项")),
                        pattern: None,
                        min: Some((1, ui_text("Port must be > 0", "端口必须大于0"))),
                        max: Some((65535, ui_text("Port must be < 65536", "端口必须小于65536"))),
                    },
                ),
            },
        ),
        NodeData::Field(
            FieldData {
                path: "series",
                label: ui_text("PLC Series", "PLC 系列"),
                data_type: UiDataType::Enum,
                items: series_items_spec(),
                default_value: Some(UiValue::Text("qnA")),
                order: 3,
                ui: None,
                rules: Some(
                    Rules {
                        required: Some(ui_text("PLC series is required", "PLC 系列是必填项")),
                        pattern: None,
                        min: None,
                        max: None,
                    },
                ),
            },
        ),
        NodeData::Field(
            FieldData {
                path: "maxPointsPerBatch",
                label: ui_text("Max Points Per Batch", "单批最大点数"),
                data_type: UiDataType::Integer,
                items: Seq::empty(),
                default_value: Some(UiValue::Integer(480)),
                order: 4,
                ui: None,
                rules: Some(
                    Rules {
                        required: None,
                        pattern: None,
                        min: Some((1, ui_text("Min 1", "最小为 1"))),
                        max: None,
                    },
                ),
            },
        ),
        NodeData::Field(
            FieldData {
                path: "maxBytesPerFrame",
                label: ui_text("Max Bytes Per Frame", "单帧最大字节数"),
                data_type: UiDataType::Integer,
                items: Seq::empty(),
                default_value: Some(UiValue::Integer(4096)),
                order: 5,
                ui: None,
                rules: Some(
                    Rules {
                        required: None,
                        pattern: None,
                        min: Some((1, ui_text("Min 1", "最小为 1"))),
                        max: None,
                    },
                ),
            },
        ),
        NodeData::Field(
            FieldData {
                path: "concurrentRequests",
                label: ui_text("Concurrent Requests", "并发请求数"),
                data_type: UiDataType::Integer,
                items: Seq::empty(),
                default_value: Some(UiValue::Integer(1)),
                order: 6,
                ui: None,
                rules: Some(
                    Rules {
                        required: None,
                        pattern: None,
                        min: Some((1, ui_text("Min 1", "最小为 1"))),
                        max: Some((64, ui_text("Max 64", "最大为 64"))),
                    },
                ),
            },
        ),
    ]
}

/// The settings of channels.
pub fn build_channel_nodes() -> (r: Vec<Node>)
    ensures
        node_views(r@) == channel_schema(),
{
    let r: Vec<Node> = vec![
        Node::Field(
            Field {
                path: "host",
                label: ui_text("Host", "主机"),
                data_type: UiDataType::String,
                items: Vec::new(),
                default_value: None,
                order: 1,
                ui: None,
                rules: Some(
                    Rules {
                        required: Some(ui_text("Host is required", "主机是必填项")),
                        pattern: Some(
                            ("^(?:(?:[A-Za-z0-9](?:[A-Za-z0-9-]{0,61}[A-Za-z0-9])?)(?:\\.(?:[A-Za-z0-9](?:[A-Za-z0-9-]{0,61}[A-Za-z0-9])?))*|(?:(?:25[0-5]|2[0-4]\\d|1\\d\\d|[1-9]?\\d)\\.){3}(?:25[0-5]|2[0-4]\\d|1\\d\\d|[1-9]?\\d))$", ui_text("Enter a valid IPv4 address or hostname (no schema/port)", "请输入有效的 IPv4 或主机名（不含协议和端口）")),
                        ),
                        min: None,
                        max: None,
                    },
                ),
            },
        ),
        Node::Field(
            Field {
                path: "port",
                label: ui_text("Port", "端口"),
                data_type: UiDataType::Integer,
                items: Vec::new(),
                default_value: Some(UiValue::Integer(5001)),
                order: 2,
                ui: None,
                rules: Some(
                    Rules {
                        required: Some(ui_text("Port is required", "端口是必填项")),
                        pattern: None,
                        min: Some((1, ui_text("Port must be > 0", "端口必须大于0"))),
                        max: Some((65535, ui_text("Port must be < 65536", "端口必须小于65536"))),
                    },
                ),
            },
        ),
        Node::Field(
            Field {
                path: "series",
                label: ui_text("PLC Series", "PLC 系列"),
                data_type: UiDataType::Enum,
                items: series_items(),
                default_value: Some(UiValue::Text("qnA")),
                order: 3,
                ui: None,
                rules: Some(
                    Rules {
                        required: Some(ui_text("PLC series is required", "PLC 系列是必填项")),
                        pattern: None,
                        min: None,
                        max: None,
                    },
                ),
            },
        ),
        Node::Field(
            Field {
                path: "maxPointsPerBatch",
                label: ui_text("Max Points Per Batch", "单批最大点数"),
                data_type: UiDataType::Integer,
                items: Vec::new(),
                default_value: Some(UiValue::Integer(480)),
                order: 4,
                ui: None,
                rules: Some(
                    Rules {
                        required: None,
                        pattern: None,
                        min: Some((1, ui_text("Min 1", "最小为 1"))),
                        max: None,
                    },
                ),
            },
        ),
        Node::Field(
            Field {
                path: "maxBytesPerFrame",
                label: ui_text("Max Bytes Per Frame", "单帧最大字节数"),
                data_type: UiDataType::Integer,
                items: Vec::new(),
                default_value: Some(UiValue::Integer(4096)),
                order: 5,
                ui: None,
                rules: Some(
                    Rules {
                        required: None,
                        pattern: None,
                        min: Some((1, ui_text("Min 1", "最小为 1"))),
                        max: None,
                    },
                ),
            },
        ),
        Node::Field(
            Field {
                path: "concurrentRequests",
                label: ui_text("Concurrent Requests", "并发请求数"),
                data_type: UiDataType::Integer,
                items: Vec::new(),
                default_value: Some(UiValue::Integer(1)),
                order: 6,
                ui: None,
                rules: Some(
                    Rules {
                        required: None,
                        pattern: None,
                        min: Some((1, ui_text("Min 1", "最小为 1"))),
                        max: Some((64, ui_text("Max 64", "最大为 64"))),
                    },
                ),
            },
        ),
    ];
    proof {
        assert(node_views(r@)[0] == r@[0]@);
        assert(node_views(r@)[1] == r@[1]@);
        assert(node_views(r@)[2] == r@[2]@);
        assert(node_views(r@)[3] == r@[3]@);
        assert(node_views(r@)[4] == r@[4]@);
        assert(node_views(r@)[5] == r@[5]@);
        assert(r@[0]->Field_0.items@ =~= Seq::empty());
        assert(r@[1]->Field_0.items@ =~= Seq::empty());
        assert(r@[3]->Field_0.items@ =~= Seq::empty());
        assert(r@[4]->Field_0.items@ =~= Seq::empty());
        assert(r@[5]->Field_0.items@ =~= Seq::empty());
        assert(node_views(r@) =~= channel_schema());
    }
    r
}

/// The settings of devices: there are none.
pub open spec fn device_schema() -> Seq<NodeData> {
    Seq::empty()
}

/// The settings of devices: there are none.
pub fn build_device_nodes() -> (r: Vec<Node>)
    ensures
        node_views(r@) == device_schema(),
{
    let r: Vec<Node> = Vec::new();
    assert(node_views(r@) =~= device_schema());
    r
}

/// The settings of points.
pub open spec fn point_schema() -> Seq<NodeData> {
    seq![
        NodeData::Field(
            FieldData {
                path: "address",
                label: ui_text("MC Address", "MC 地址"),
                data_type: UiDataType::String,
                items: Seq::empty(),
                default_value: None,
                order: 1,
                ui: None,
                rules: Some(
                    Rules {
                        required: Some(ui_text("Address is required", "地址是必填项")),
                        pattern: None,
                        min: None,
                        max: None,
                    },
                ),
            },
        ),
        NodeData::Field(
            FieldData {
                path: "stringLenBytes",
                label: ui_text("String Length (bytes)", "字符串长度(字节)"),
                data_type: UiDataType::Integer,
                items: Seq::empty(),
                default_value: None,
                order: 2,
                ui: None,
                rules: None,
            },
        ),
    ]
}

/// The settings of points.
pub fn build_point_nodes() -> (r: Vec<Node>)
    ensures
        node_views(r@) == point_schema(),
{
    let r: Vec<Node> = vec![
        Node::Field(
            Field {
                path: "address",
                label: ui_text("MC Address", "MC 地址"),
                data_type: UiDataType::String,
                items: Vec::new(),
                default_value: None,
                order: 1,
                ui: None,
                rules: Some(
                    Rules {
                        required: Some(ui_text("Address is required", "地址是必填项")),
                        pattern: None,
                        min: None,
                        max: None,
                    },
                ),
            },
        ),
        Node::Field(
            Field {
                path: "stringLenBytes",
                label: ui_text("String Length (bytes)", "字符串长度(字节)"),
                data_type: UiDataType::Integer,
                items: Vec::new(),
                default_value: None,
                order: 2,
                ui: None,
                rules: None,
            },
        ),
    ];
    proof {
        assert(node_views(r@)[0] == r@[0]@);
        assert(node_views(r@)[1] == r@[1]@);
        assert(r@[0]->Field_0.items@ =~= Seq::empty());
        assert(r@[1]->Field_0.items@ =~= Seq::empty());
        assert(node_views(r@) =~= point_schema());
    }
    r
}

/// The settings of parameters of actions.
pub open spec fn action_schema() -> Seq<NodeData> {
    seq![
        NodeData::Field(
            FieldData {
                path: "address",
                label: ui_text("MC Address", "MC 地址"),
                data_type: UiDataType::String,
                items: Seq::empty(),
                default_value: None,
                order: 1,
                ui: None,
                rules: Some(
                    Rules {
                        required: Some(ui_text("Address is required", "地址是必填项")),
                        pattern: None,
                        min: None,
                        max: None,
                    },
                ),
            },
        ),
    ]
}

/// The settings of parameters of actions.
pub fn build_action_nodes() -> (r: Vec<Node>)
    ensures
        node_views(r@) == action_schema(),
{
    let r: Vec<Node> = vec![
        Node::Field(
            Field {
                path: "address",
                label: ui_text("MC Address", "MC 地址"),
                data_type: UiDataType::String,
                items: Vec::new(),
                default_value: None,
                order: 1,
                ui: None,
                rules: Some(
                    Rules {
                        required: Some(ui_text("Address is required", "地址是必填项")),
                        pattern: None,
                        min: None,
                        max: None,
                    },
                ),
            },
        ),
    ];
    proof {
        assert(node_views(r@)[0] == r@[0]@);
        assert(r@[0]->Field_0.items@ =~= Seq::empty());
        assert(node_views(r@) =~= action_schema());
    }
    r
}

/// The settings of the driver.
pub open spec fn schemas() -> DriverSchemasData {
    DriverSchemasData {
        channel: channel_schema(),
        device: device_schema(),
        point: point_schema(),
        action: action_schema(),
    }
}

/// The settings of the driver.
pub fn build_metadata() -> (r: DriverSchemas)
    ensures
        r@ == schemas(),
{
    DriverSchemas {
        channel: build_channel_nodes(),
        device: build_device_nodes(),
        point: build_point_nodes(),
        action: build_action_nodes(),
    }
}

/// What the interface offers as the default of the planner settings is what
/// the driver goes by, for the series that it offers, where nothing is
/// configured.
pub proof fn schema_defaults_are_the_defaults(c: McChannelConfig)
    requires
        c.series is QnA,
        c.max_points_per_batch is None,
        c.max_bytes_per_frame is None,
        c.concurrent_requests is None,
    ensures
        channel_schema()[3] matches NodeData::Field(f) && f.default_value == Some(
            UiValue::Integer(planner_limits(c).0 as i64),
        ),
        channel_schema()[4] matches NodeData::Field(f) && f.default_value == Some(
            UiValue::Integer(planner_limits(c).1 as i64),
        ),
        channel_schema()[5] matches NodeData::Field(f) && f.default_value == Some(
            UiValue::Integer(at_least_one(c.concurrent_requests) as i64),
        ),
{
}

} // verus!
