//! What the settings of the drivers offer: names, kinds, defaults and ranges.

use crate::iec104::metadata as telecontrol;
use crate::mc::metadata as controllers;
use crate::schema::{EnumItem, FieldData, NodeData, UiDataType, UiValue};
use vstd::prelude::*;

verus! {

/// The setting has this name, kind, default and place, must be given or not,
/// and lies in this range.
pub open spec fn offers(
    f: FieldData,
    path: &str,
    kind: UiDataType,
    default_value: Option<UiValue>,
    order: u32,
    required: bool,
    min: Option<i64>,
    max: Option<i64>,
) -> bool {
    &&& f.path@ == path@
    &&& f.data_type == kind
    &&& f.default_value == default_value
    &&& f.order == order
    &&& match f.rules {
        Some(r) => {
            &&& r.required is Some <==> required
            &&& match r.min {
                Some(m) => min == Some(m.0),
                None => min is None,
            }
            &&& match r.max {
                Some(m) => max == Some(m.0),
                None => max is None,
            }
        },
        None => !required && min is None && max is None,
    }
}

/// The node is such a setting.
pub open spec fn offers_field(
    n: NodeData,
    path: &str,
    kind: UiDataType,
    default_value: Option<UiValue>,
    order: u32,
    required: bool,
    min: Option<i64>,
    max: Option<i64>,
) -> bool {
    n matches NodeData::Field(f) && offers(f, path, kind, default_value, order, required, min, max)
}

/// The settings of channels to controllers.
pub proof fn settings_of_controller_channels()
    ensures
        ({
            let s = controllers::channel_schema();
            &&& s.len() == 6
            &&& offers_field(
                s[0],
                "host",
                UiDataType::String,
                None,
                1,
                true,
                None,
                None,
            )
            &&& offers_field(
                s[1],
                "port",
                UiDataType::Integer,
                Some(UiValue::Integer(5001)),
                2,
                true,
                Some(1),
                Some(65535),
            )
            &&& offers_field(
                s[2],
                "series",
                UiDataType::Enum,
                Some(UiValue::Text("qnA")),
                3,
                true,
                None,
                None,
            )
            &&& offers_field(
                s[3],
                "maxPointsPerBatch",
                UiDataType::Integer,
                Some(UiValue::Integer(480)),
                4,
                false,
                Some(1),
                None,
            )
            &&& offers_field(
                s[4],
                "maxBytesPerFrame",
                UiDataType::Integer,
                Some(UiValue::Integer(4096)),
                5,
                false,
                Some(1),
                None,
            )
            &&& offers_field(
                s[5],
                "concurrentRequests",
                UiDataType::Integer,
                Some(UiValue::Integer(1)),
                6,
                false,
                Some(1),
                Some(64),
            )
            &&& s[2] matches NodeData::Field(f) && {
                &&& f.items.len() == 4
                &&& f.items[0].key == UiValue::Text("a")
                &&& f.items[1].key == UiValue::Text("qnA")
                &&& f.items[2].key == UiValue::Text("qL")
                &&& f.items[3].key == UiValue::Text("iQR")
            }
        }),
{
}

/// The settings of points of controllers.
pub proof fn settings_of_controller_points()
    ensures
        ({
            let s = controllers::point_schema();
            &&& s.len() == 2
            &&& offers_field(
                s[0],
                "address",
                UiDataType::String,
                None,
                1,
                true,
                None,
                None,
            )
            &&& offers_field(
                s[1],
                "stringLenBytes",
                UiDataType::Integer,
                None,
                2,
                false,
                None,
                None,
            )
        }),
{
}

/// The settings of parameters of actions of controllers.
pub proof fn settings_of_controller_actions()
    ensures
        ({
            let s = controllers::action_schema();
            &&& s.len() == 1
            &&& offers_field(
                s[0],
                "address",
                UiDataType::String,
                None,
                1,
                true,
                None,
                None,
            )
        }),
{
}

/// The settings of the drivers are those of their channels, devices, points and
/// actions; devices of controllers have none.
pub proof fn settings_of_the_drivers()
    ensures
        controllers::device_schema().len() == 0,
        controllers::schemas().channel == controllers::channel_schema(),
        controllers::schemas().device == controllers::device_schema(),
        controllers::schemas().point == controllers::point_schema(),
        controllers::schemas().action == controllers::action_schema(),
        telecontrol::schemas().channel == telecontrol::channel_schema(),
        telecontrol::schemas().device == telecontrol::device_schema(),
        telecontrol::schemas().point == telecontrol::point_schema(),
        telecontrol::schemas().action == telecontrol::action_schema(),
{
}

/// The settings of telecontrol channels, with the advanced ones in a group.
pub proof fn settings_of_telecontrol_channels()
    ensures
        ({
            let s = telecontrol::channel_schema();
            &&& s.len() == 3
            &&& offers_field(
                s[0],
                "host",
                UiDataType::String,
                None,
                1,
                true,
                None,
                None,
            )
            &&& offers_field(
                s[1],
                "port",
                UiDataType::Integer,
                Some(UiValue::Integer(2404)),
                2,
                true,
                Some(1),
                Some(65535),
            )
            &&& s[2] matches NodeData::Group { id, collapsible, order, fields, .. } && id@
                == "advanced"@ && collapsible && order == 3 && fields
                == telecontrol::advanced_fields_spec()
        }),
{
}

/// The advanced settings of telecontrol channels.
pub proof fn advanced_settings_of_telecontrol_channels()
    ensures
        ({
            let s = telecontrol::advanced_fields_spec();
            &&& s.len() == 14
            &&& offers(
                s[0],
                "t0Ms",
                UiDataType::Integer,
                Some(UiValue::Integer(10000)),
                3,
                false,
                Some(100),
                None,
            )
            &&& offers(
                s[1],
                "t1Ms",
                UiDataType::Integer,
                Some(UiValue::Integer(15000)),
                4,
                false,
                Some(100),
                None,
            )
            &&& offers(
                s[2],
                "t2Ms",
                UiDataType::Integer,
                Some(UiValue::Integer(10000)),
                5,
                false,
                Some(100),
                None,
            )
            &&& offers(
                s[3],
                "t3Ms",
                UiDataType::Integer,
                Some(UiValue::Integer(20000)),
                6,
                false,
                Some(100),
                None,
            )
            &&& offers(
                s[4],
                "kWindow",
                UiDataType::Integer,
                Some(UiValue::Integer(12)),
                7,
                false,
                Some(1),
                None,
            )
            &&& offers(
                s[5],
                "wThreshold",
                UiDataType::Integer,
                Some(UiValue::Integer(8)),
                8,
                false,
                Some(1),
                None,
            )
            &&& offers(
                s[6],
                "tcpNodelay",
                UiDataType::Boolean,
                Some(UiValue::Boolean(true)),
                9,
                false,
                None,
                None,
            )
            &&& offers(
                s[7],
                "sendQueueCapacity",
                UiDataType::Integer,
                Some(UiValue::Integer(1024)),
                10,
                false,
                Some(1),
                None,
            )
            &&& offers(
                s[8],
                "maxPendingAsduBytes",
                UiDataType::Integer,
                Some(UiValue::Integer(1048576)),
                11,
                false,
                Some(1024),
                None,
            )
            &&& offers(
                s[9],
                "discardLowPriorityWhenWindowFull",
                UiDataType::Boolean,
                Some(UiValue::Boolean(true)),
                12,
                false,
                None,
                None,
            )
            &&& offers(
                s[10],
                "mergeLowPriority",
                UiDataType::Boolean,
                Some(UiValue::Boolean(true)),
                13,
                false,
                None,
                None,
            )
            &&& offers(
                s[11],
                "lowPrioFlushMaxAgeMs",
                UiDataType::Integer,
                Some(UiValue::Integer(2000)),
                14,
                false,
                Some(0),
                None,
            )
            &&& offers(
                s[12],
                "startupQoi",
                UiDataType::Integer,
                Some(UiValue::Integer(20)),
                17,
                false,
                Some(0),
                Some(255),
            )
            &&& offers(
                s[13],
                "startupQcc",
                UiDataType::Integer,
                Some(UiValue::Integer(5)),
                18,
                false,
                Some(0),
                Some(255),
            )
        }),
{
}

/// The settings of telecontrol devices.
pub proof fn settings_of_telecontrol_devices()
    ensures
        ({
            let s = telecontrol::device_schema();
            &&& s.len() == 1
            &&& offers_field(
                s[0],
                "ca",
                UiDataType::Integer,
                None,
                1,
                true,
                Some(1),
                Some(65535),
            )
        }),
{
}

/// The settings of telecontrol points.
pub proof fn settings_of_telecontrol_points()
    ensures
        ({
            let s = telecontrol::point_schema();
            &&& s.len() == 2
            &&& offers_field(
                s[0],
                "ioa",
                UiDataType::Integer,
                None,
                1,
                true,
                Some(0),
                Some(65535),
            )
            &&& offers_field(
                s[1],
                "typeId",
                UiDataType::Enum,
                None,
                2,
                true,
                None,
                None,
            )
            &&& s[1] matches NodeData::Field(f) && f.items == telecontrol::point_types_spec()
        }),
{
}

/// The settings of parameters of telecontrol actions.
pub proof fn settings_of_telecontrol_actions()
    ensures
        ({
            let s = telecontrol::action_schema();
            &&& s.len() == 2
            &&& offers_field(
                s[0],
                "ioa",
                UiDataType::Integer,
                None,
                1,
                true,
                Some(0),
                Some(65535),
            )
            &&& offers_field(
                s[1],
                "typeId",
                UiDataType::Enum,
                None,
                2,
                true,
                None,
                None,
            )
            &&& s[1] matches NodeData::Field(f) && f.items == telecontrol::command_types_spec()
        }),
{
}

/// The type numbers that items stand for.
pub open spec fn numbers_of(items: Seq<EnumItem>, numbers: Seq<i64>) -> bool {
    &&& items.len() == numbers.len()
    &&& forall|i: int|
        0 <= i < items.len() ==> (#[trigger] items[i]).key == UiValue::Integer(numbers[i])
}

/// The types that can be chosen for points are those of monitored process
/// information.
pub proof fn types_offered_for_points()
    ensures
        numbers_of(
            telecontrol::point_types_spec(),
            seq![1, 2, 30, 3, 4, 31, 5, 6, 32, 7, 8, 33, 9, 10, 34, 21, 11, 12, 35, 13, 14, 36, 15, 16, 37],
        ),
{
}

/// The types that can be chosen for actions are those of commands.
pub proof fn types_offered_for_actions()
    ensures
        numbers_of(
            telecontrol::command_types_spec(),
            seq![45, 58, 46, 59, 47, 60, 48, 61, 49, 62, 50, 63, 51, 64],
        ),
{
}

} // verus!
