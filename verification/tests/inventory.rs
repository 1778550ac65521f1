use hubitat_exporter::hub::DeviceInventory;
use hubitat_exporter::inventory::InventoryIndex;

fn record(id: &str, hub_name: &str) -> DeviceInventory {
    DeviceInventory { id: id.to_string(), hub_name: hub_name.to_string(), ..Default::default() }
}

#[test]
fn an_index_finds_each_record_by_its_identifier() {
    let index = InventoryIndex::build(vec![record("1", "H1"), record("2", "H2")]);
    assert_eq!(index.get("1").map(|r| r.hub_name.as_str()), Some("H1"));
    assert_eq!(index.get("2").map(|r| r.hub_name.as_str()), Some("H2"));
    assert!(index.get("3").is_none());
    assert!(index.get("").is_none());
}

#[test]
fn a_later_record_takes_the_place_of_an_earlier_one() {
    let index =
        InventoryIndex::build(vec![record("1", "first"), record("2", "other"), record("1", "last")]);
    assert_eq!(index.get("1").map(|r| r.hub_name.as_str()), Some("last"));
    assert_eq!(index.get("2").map(|r| r.hub_name.as_str()), Some("other"));
}

#[test]
fn an_empty_inventory_knows_nothing() {
    let index = InventoryIndex::build(Vec::new());
    assert!(index.get("1").is_none());
    assert!(index.get("").is_none());
}

#[test]
fn identifiers_are_compared_exactly() {
    let index = InventoryIndex::build(vec![record("A1", "H")]);
    assert!(index.get("a1").is_none());
    assert!(index.get(" A1").is_none());
    assert!(index.get("A1").is_some());
}

#[test]
fn a_record_without_identifier_is_found_under_the_empty_text() {
    let index = InventoryIndex::build(vec![record("", "H")]);
    assert_eq!(index.get("").map(|r| r.hub_name.as_str()), Some("H"));
}

#[test]
fn the_default_record_is_empty() {
    let empty = DeviceInventory::default();
    assert_eq!(empty.id, "");
    assert_eq!(empty.hub_name, "");
    assert_eq!(empty.location_name, "");
    assert_eq!(empty.device_type_name, "");
    assert_eq!(empty.device_network_id, "");
    assert_eq!(empty.type_, "");
    assert_eq!(empty.display_name, "");
}

#[test]
fn a_copy_of_a_record_has_the_same_fields() {
    let record = DeviceInventory {
        id: "7".to_string(),
        hub_name: "H".to_string(),
        location_name: "L".to_string(),
        device_type_name: "T".to_string(),
        device_network_id: "N".to_string(),
        label: "label".to_string(),
        last_activity_time: "2022-01-01".to_string(),
        ..Default::default()
    };
    let copy = record.clone();
    assert_eq!(copy.id, "7");
    assert_eq!(copy.hub_name, "H");
    assert_eq!(copy.location_name, "L");
    assert_eq!(copy.device_type_name, "T");
    assert_eq!(copy.device_network_id, "N");
    assert_eq!(copy.label, "label");
    assert_eq!(copy.last_activity_time, "2022-01-01");
    assert_eq!(copy.zigbee_id, "");
}
