//! Description of driver settings for a configuration interface.

use vstd::prelude::*;

verus! {

/// A text in English and Chinese.
#[derive(Debug, Clone, Copy, PartialEq, Eq)]
pub struct UiText {
    pub en: &'static str,
    pub zh: &'static str,
}

/// A text in English and Chinese.
#[verifier::allow_in_spec]
pub fn ui_text(en: &'static str, zh: &'static str) -> (r: UiText)
    returns
        (UiText { en, zh }),
{
    UiText { en, zh }
}

/// A value of a setting.
#[derive(Debug, Clone, Copy, PartialEq, Eq)]
pub enum UiValue {
    Integer(i64),
    Boolean(bool),
    Text(&'static str),
}

/// What a setting holds.
#[derive(Debug, Clone, Copy, PartialEq, Eq, Structural)]
pub enum UiDataType {
    String,
    Integer,
    Boolean,
    /// One of the items.
    Enum,
}

/// A value that can be chosen.
#[derive(Debug, Clone, Copy, PartialEq, Eq)]
pub struct EnumItem {
    pub key: UiValue,
    pub label: UiText,
}

/// How a setting is shown.
#[derive(Debug, Clone, Copy, PartialEq, Eq)]
pub struct UiProps {
    pub col_span: Option<u32>,
    pub help: Option<UiText>,
}

/// What a setting must fulfil, each with what is said where it does not.
#[derive(Debug, Clone, Copy, PartialEq, Eq)]
pub struct Rules {
    /// It must be given.
    pub required: Option<UiText>,
    /// It must match a regular expression.
    pub pattern: Option<(&'static str, UiText)>,
    /// It must not be less.
    pub min: Option<(i64, UiText)>,
    /// It must not be greater.
    pub max: Option<(i64, UiText)>,
}

/// A setting.
#[derive(Debug, Clone)]
pub struct Field {
    pub path: &'static str,
    pub label: UiText,
    pub data_type: UiDataType,
    /// The values that can be chosen.
    pub items: Vec<EnumItem>,
    pub default_value: Option<UiValue>,
    pub order: u32,
    pub ui: Option<UiProps>,
    pub rules: Option<Rules>,
}

/// A setting as mathematical data.
pub struct FieldData {
    pub path: &'static str,
    pub label: UiText,
    pub data_type: UiDataType,
    pub items: Seq<EnumItem>,
    pub default_value: Option<UiValue>,
    pub order: u32,
    pub ui: Option<UiProps>,
    pub rules: Option<Rules>,
}

impl View for Field {
    type V = FieldData;

    open spec fn view(&self) -> FieldData {
        FieldData {
            path: self.path,
            label: self.label,
            data_type: self.data_type,
            items: self.items@,
            default_value: self.default_value,
            order: self.order,
            ui: self.ui,
            rules: self.rules,
        }
    }
}

/// Settings as mathematical data.
pub open spec fn field_views(v: Seq<Field>) -> Seq<FieldData> {
    v.map_values(|f: Field| f@)
}

/// A setting, or a group of them.
#[derive(Debug, Clone)]
pub enum Node {
    Field(Field),
    Group {
        id: &'static str,
        label: UiText,
        collapsible: bool,
        order: u32,
        fields: Vec<Field>,
    },
}

/// A setting, or a group of them, as mathematical data.
pub enum NodeData {
    Field(FieldData),
    Group {
        id: &'static str,
        label: UiText,
        collapsible: bool,
        order: u32,
        fields: Seq<FieldData>,
    },
}

impl View for Node {
    type V = NodeData;

    open spec fn view(&self) -> NodeData {
        match *self {
            Node::Field(f) => NodeData::Field(f@),
            Node::Group { id, label, collapsible, order, fields } => NodeData::Group {
                id,
                label,
                collapsible,
                order,
                fields: field_views(fields@),
            },
        }
    }
}

/// Settings and groups as mathematical data.
pub open spec fn node_views(v: Seq<Node>) -> Seq<NodeData> {
    v.map_values(|n: Node| n@)
}

/// The settings of a driver.
#[derive(Debug, Clone)]
pub struct DriverSchemas {
    pub channel: Vec<Node>,
    pub device: Vec<Node>,
    pub point: Vec<Node>,
    pub action: Vec<Node>,
}

/// The settings of a driver as mathematical data.
pub struct DriverSchemasData {
    pub channel: Seq<NodeData>,
    pub device: Seq<NodeData>,
    pub point: Seq<NodeData>,
    pub action: Seq<NodeData>,
}

impl View for DriverSchemas {
    type V = DriverSchemasData;

    open spec fn view(&self) -> DriverSchemasData {
        DriverSchemasData {
            channel: node_views(self.channel@),
            device: node_views(self.device@),
            point: node_views(self.point@),
            action: node_views(self.action@),
        }
    }
}

} // verus!
