//! What the hub reports: inventory records, the device list, and the detail
//! of one device with its attributes.
//!
//! Every field that the hub may send as a string, a number, a boolean or
//! null is held here as text, null being the empty text.

use vstd::prelude::*;
use crate::rules::{normalize, normalize_in, standard_rules, text_of};

verus! {

/// A JSON value of `serde_json`, carried through without being looked into.
#[verifier::external_type_specification]
#[verifier::external_body]
pub struct ExJsonValue(serde_json::Value);

/// A field of the hub's JSON before it is taken as text.
#[derive(Debug)]
pub enum RawField {
    /// A JSON string.
    Text(String),
    /// A JSON number, in the notation in which it was sent.
    Number(String),
    /// A JSON boolean.
    Flag(bool),
    /// JSON null.
    Null,
    /// An array or an object, which no text field can hold.
    Composite,
}

/// The failure to take a field as text.
#[derive(Debug, Clone, Copy, PartialEq, Eq, Structural)]
pub enum FieldError {
    /// The field holds an array or an object.
    WrongType,
}

impl FieldError {
    /// What the failure is called in messages.
    pub fn message(&self) -> (text: String)
        ensures
            text@ == "wrong type"@,
    {
        "wrong type".to_owned()
    }
}

/// The text that a field is taken as: a string is itself, a number is its
/// notation, a boolean is `true` or `false`, and null is the empty text.
pub open spec fn field_text_of(field: RawField) -> Result<Seq<char>, FieldError> {
    match field {
        RawField::Text(text) => Ok(text@),
        RawField::Number(notation) => Ok(notation@),
        RawField::Flag(flag) => Ok(
            if flag {
                "true"@
            } else {
                "false"@
            },
        ),
        RawField::Null => Ok(Seq::empty()),
        RawField::Composite => Err(FieldError::WrongType),
    }
}

/// Takes a field as text, whatever JSON scalar it was sent as. Every field
/// that the hub types loosely goes through here, so that what follows only
/// ever sees text.
pub fn field_text(field: RawField) -> (text: Result<String, FieldError>)
    ensures
        match text {
            Ok(text) => field_text_of(field) == Ok::<Seq<char>, FieldError>(text@),
            Err(error) => field_text_of(field) == Err::<Seq<char>, FieldError>(error),
        },
{
    match field {
        RawField::Text(text) => Ok(text),
        RawField::Number(notation) => Ok(notation),
        RawField::Flag(flag) => Ok(
            if flag {
                "true".to_owned()
            } else {
                "false".to_owned()
            },
        ),
        RawField::Null => Ok(String::new()),
        RawField::Composite => Err(FieldError::WrongType),
    }
}

/// An inventory record as the contracts see it.
pub struct InventoryRecord {
    pub location_name: Seq<char>,
    pub hub_name: Seq<char>,
    pub is_component: Seq<char>,
    pub zigbee_id: Seq<char>,
    pub device_type_name: Seq<char>,
    pub location_id: Seq<char>,
    pub id: Seq<char>,
    pub lan_id: Seq<char>,
    pub hub_id: Seq<char>,
    pub display_as_child: Seq<char>,
    pub mesh_enabled: Seq<char>,
    pub name: Seq<char>,
    pub type_: Seq<char>,
    pub disabled: Seq<char>,
    pub status: Seq<char>,
    pub linked_device: Seq<char>,
    pub label: Seq<char>,
    pub device_network_id: Seq<char>,
    pub device_type_id: Seq<char>,
    pub last_activity_time: Seq<char>,
    pub parent_device_id: Seq<char>,
    pub display_name: Seq<char>,
}

/// One row of the hub-wide device inventory.
#[derive(Debug)]
pub struct DeviceInventory {
    pub location_name: String,
    pub hub_name: String,
    pub is_component: String,
    pub zigbee_id: String,
    pub device_type_name: String,
    pub location_id: String,
    pub id: String,
    pub lan_id: String,
    pub hub_id: String,
    pub display_as_child: String,
    pub mesh_enabled: String,
    pub name: String,
    pub type_: String,
    pub disabled: String,
    pub status: String,
    pub linked_device: String,
    pub label: String,
    pub device_network_id: String,
    pub device_type_id: String,
    pub last_activity_time: String,
    pub parent_device_id: String,
    pub display_name: String,
}

impl View for DeviceInventory {
    type V = InventoryRecord;

    open spec fn view(&self) -> InventoryRecord {
        InventoryRecord {
            location_name: self.location_name@,
            hub_name: self.hub_name@,
            is_component: self.is_component@,
            zigbee_id: self.zigbee_id@,
            device_type_name: self.device_type_name@,
            location_id: self.location_id@,
            id: self.id@,
            lan_id: self.lan_id@,
            hub_id: self.hub_id@,
            display_as_child: self.display_as_child@,
            mesh_enabled: self.mesh_enabled@,
            name: self.name@,
            type_: self.type_@,
            disabled: self.disabled@,
            status: self.status@,
            linked_device: self.linked_device@,
            label: self.label@,
            device_network_id: self.device_network_id@,
            device_type_id: self.device_type_id@,
            last_activity_time: self.last_activity_time@,
            parent_device_id: self.parent_device_id@,
            display_name: self.display_name@,
        }
    }
}

/// The inventory record whose fields are all empty.
pub open spec fn empty_record() -> InventoryRecord {
    InventoryRecord {
        location_name: Seq::empty(),
        hub_name: Seq::empty(),
        is_component: Seq::empty(),
        zigbee_id: Seq::empty(),
        device_type_name: Seq::empty(),
        location_id: Seq::empty(),
        id: Seq::empty(),
        lan_id: Seq::empty(),
        hub_id: Seq::empty(),
        display_as_child: Seq::empty(),
        mesh_enabled: Seq::empty(),
        name: Seq::empty(),
        type_: Seq::empty(),
        disabled: Seq::empty(),
        status: Seq::empty(),
        linked_device: Seq::empty(),
        label: Seq::empty(),
        device_network_id: Seq::empty(),
        device_type_id: Seq::empty(),
        last_activity_time: Seq::empty(),
        parent_device_id: Seq::empty(),
        display_name: Seq::empty(),
    }
}

impl Default for DeviceInventory {
    fn default() -> (record: DeviceInventory)
        ensures
            record@ == empty_record(),
    {
        DeviceInventory {
            location_name: String::new(),
            hub_name: String::new(),
            is_component: String::new(),
            zigbee_id: String::new(),
            device_type_name: String::new(),
            location_id: String::new(),
            id: String::new(),
            lan_id: String::new(),
            hub_id: String::new(),
            display_as_child: String::new(),
            mesh_enabled: String::new(),
            name: String::new(),
            type_: String::new(),
            disabled: String::new(),
            status: String::new(),
            linked_device: String::new(),
            label: String::new(),
            device_network_id: String::new(),
            device_type_id: String::new(),
            last_activity_time: String::new(),
            parent_device_id: String::new(),
            display_name: String::new(),
        }
    }
}

impl Clone for DeviceInventory {
    fn clone(&self) -> (copy: DeviceInventory)
        ensures
            copy@ == self@,
    {
        DeviceInventory {
            location_name: self.location_name.clone(),
            hub_name: self.hub_name.clone(),
            is_component: self.is_component.clone(),
            zigbee_id: self.zigbee_id.clone(),
            device_type_name: self.device_type_name.clone(),
            location_id: self.location_id.clone(),
            id: self.id.clone(),
            lan_id: self.lan_id.clone(),
            hub_id: self.hub_id.clone(),
            display_as_child: self.display_as_child.clone(),
            mesh_enabled: self.mesh_enabled.clone(),
            name: self.name.clone(),
            type_: self.type_.clone(),
            disabled: self.disabled.clone(),
            status: self.status.clone(),
            linked_device: self.linked_device.clone(),
            label: self.label.clone(),
            device_network_id: self.device_network_id.clone(),
            device_type_id: self.device_type_id.clone(),
            last_activity_time: self.last_activity_time.clone(),
            parent_device_id: self.parent_device_id.clone(),
            display_name: self.display_name.clone(),
        }
    }
}

/// One entry of the hub's device list. Only the identifier is read.
#[derive(Debug)]
pub struct DeviceIDs {
    pub id: String,
    pub name: String,
    pub label: String,
}

/// An attribute as the contracts see it.
pub struct Attribute {
    pub name: Seq<char>,
    pub current_value: Seq<char>,
    pub data_type: Seq<char>,
    pub values: Seq<Seq<char>>,
}

/// A single named, typed, current-valued property reported by a device.
#[derive(Debug)]
pub struct DeviceAttribute {
    pub name: String,
    pub current_value: String,
    pub data_type: String,
    pub values: Vec<String>,
}

/// The characters of each string of a list.
pub open spec fn texts(list: Seq<String>) -> Seq<Seq<char>> {
    Seq::new(list.len(), |i: int| list[i]@)
}

impl View for DeviceAttribute {
    type V = Attribute;

    open spec fn view(&self) -> Attribute {
        Attribute {
            name: self.name@,
            current_value: self.current_value@,
            data_type: self.data_type@,
            values: texts(self.values@),
        }
    }
}

impl DeviceAttribute {
    /// The numeric value of this attribute: the code that the rule for its
    /// capability gives its current value, or what its data type falls back
    /// on where no rule is for it. `None` means that the attribute has no
    /// value and is left out of the metrics.
    pub fn get_numeric_value(&self) -> (value: Option<String>)
        ensures
            text_of(value) == normalize(self.name@, self.data_type@, self.current_value@),
    {
        let table = standard_rules();
        normalize_in(&table, self.name.as_str(), self.data_type.as_str(), self.current_value.as_str())
    }
}

/// The attributes of a device as the contracts see them.
pub open spec fn attributes_view(attributes: Seq<DeviceAttribute>) -> Seq<Attribute> {
    Seq::new(attributes.len(), |i: int| attributes[i]@)
}

/// The detail of a device as the contracts see it. The capability list is
/// opaque and has no part in it.
pub struct DeviceDetail {
    pub id: Seq<char>,
    pub name: Seq<char>,
    pub label: Seq<char>,
    pub type_: Seq<char>,
    pub attributes: Seq<Attribute>,
    pub commands: Seq<Seq<char>>,
}

/// The full record of one device.
#[derive(Debug)]
pub struct Device {
    pub id: String,
    pub name: String,
    pub label: String,
    pub type_: String,
    pub attributes: Vec<DeviceAttribute>,
    pub capabilities: Vec<serde_json::Value>,
    pub commands: Vec<String>,
}

impl View for Device {
    type V = DeviceDetail;

    open spec fn view(&self) -> DeviceDetail {
        DeviceDetail {
            id: self.id@,
            name: self.name@,
            label: self.label@,
            type_: self.type_@,
            attributes: attributes_view(self.attributes@),
            commands: texts(self.commands@),
        }
    }
}

/// The placeholder that leads every list of device details: no identifier,
/// no name, no attributes.
pub open spec fn placeholder() -> DeviceDetail {
    DeviceDetail {
        id: Seq::empty(),
        name: Seq::empty(),
        label: Seq::empty(),
        type_: Seq::empty(),
        attributes: Seq::empty(),
        commands: Seq::empty(),
    }
}

impl Default for Device {
    fn default() -> (device: Device)
        ensures
            device@ == placeholder(),
            device.capabilities@.len() == 0,
    {
        let device = Device {
            id: String::new(),
            name: String::new(),
            label: String::new(),
            type_: String::new(),
            attributes: Vec::new(),
            capabilities: Vec::new(),
            commands: Vec::new(),
        };
        assert(device@.attributes =~= Seq::empty());
        assert(device@.commands =~= Seq::empty());
        device
    }
}

/// The devices of a list as the contracts see them.
pub open spec fn devices_view(devices: Seq<Device>) -> Seq<DeviceDetail> {
    Seq::new(devices.len(), |i: int| devices[i]@)
}

} // verus!
