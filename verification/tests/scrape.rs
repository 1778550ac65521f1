use hubitat_exporter::hub::{Device, DeviceAttribute, DeviceIDs, DeviceInventory};
use hubitat_exporter::inventory::InventoryIndex;
use hubitat_exporter::scrape::{
    device_ids, device_ids_outcome, inventory_outcome, metrics_body, parse_device_id, DetailFetch,
    FetchError, InventoryFetch,
};

fn entry(id: &str) -> DeviceIDs {
    DeviceIDs { id: id.to_string(), name: "name".to_string(), label: "label".to_string() }
}

fn named(id: &str, name: &str) -> Device {
    Device { id: id.to_string(), name: name.to_string(), ..Default::default() }
}

#[test]
fn identifiers_that_are_numbers_are_kept_in_order() {
    let list = vec![entry("3"), entry("1"), entry("2"), entry("1")];
    assert_eq!(device_ids(&list), vec![3, 1, 2, 1]);
}

#[test]
fn identifiers_that_are_no_numbers_are_dropped() {
    let list = vec![
        entry("12"),
        entry("abc"),
        entry(""),
        entry("-4"),
        entry("1.5"),
        entry("0x10"),
        entry("1 2"),
        entry("7"),
    ];
    assert_eq!(device_ids(&list), vec![12, 7]);
}

#[test]
fn white_space_around_an_identifier_is_ignored() {
    let list = vec![entry(" 12 "), entry("\t34\n"), entry("  "), entry("5 ")];
    assert_eq!(device_ids(&list), vec![12, 34, 5]);
}

#[test]
fn an_identifier_must_fit_in_thirty_two_bits() {
    let list = vec![entry("4294967295"), entry("4294967296"), entry("99999999999999999999"), entry("0")];
    assert_eq!(device_ids(&list), vec![4294967295, 0]);
}

#[test]
fn an_empty_device_list_gives_no_numbers() {
    assert_eq!(device_ids(&Vec::new()), Vec::<u32>::new());
}

#[test]
fn decimal_notation_of_a_device_number() {
    assert_eq!(parse_device_id("42"), Some(42));
    assert_eq!(parse_device_id("+42"), Some(42));
    assert_eq!(parse_device_id("007"), Some(7));
    assert_eq!(parse_device_id("0"), Some(0));
    assert_eq!(parse_device_id("4294967295"), Some(4294967295));
    assert_eq!(parse_device_id("4294967296"), None);
    assert_eq!(parse_device_id(""), None);
    assert_eq!(parse_device_id("+"), None);
    assert_eq!(parse_device_id("++1"), None);
    assert_eq!(parse_device_id("-1"), None);
    assert_eq!(parse_device_id(" 1"), None);
    assert_eq!(parse_device_id("1 "), None);
    assert_eq!(parse_device_id("1_000"), None);
    assert_eq!(parse_device_id("\u{0661}"), None);
}

#[test]
fn a_fetched_device_list_gives_its_numbers() {
    let outcome = device_ids_outcome(Ok(vec![entry("8"), entry("x"), entry("9")]));
    assert_eq!(outcome, Ok(vec![8, 9]));
}

#[test]
fn a_failed_device_list_gives_its_failure() {
    assert_eq!(device_ids_outcome(Err(FetchError::RequestFailed)), Err(FetchError::RequestFailed));
    assert_eq!(
        device_ids_outcome(Err(FetchError::JsonParsingFailed)),
        Err(FetchError::JsonParsingFailed)
    );
}

#[test]
fn the_collection_starts_with_the_placeholder() {
    let fetch = DetailFetch::start(Ok(Vec::new()));
    assert_eq!(fetch.next_id(), None);
    let devices = fetch.finish().unwrap();
    assert_eq!(devices.len(), 1);
    assert_eq!(devices[0].id, "");
    assert_eq!(devices[0].name, "");
    assert_eq!(devices[0].label, "");
    assert_eq!(devices[0].type_, "");
    assert!(devices[0].attributes.is_empty());
    assert!(devices[0].capabilities.is_empty());
    assert!(devices[0].commands.is_empty());
}

#[test]
fn devices_are_collected_in_the_order_of_their_numbers() {
    let mut fetch = DetailFetch::start(Ok(vec![5, 3, 8]));
    assert_eq!(fetch.next_id(), Some(5));
    assert_eq!(fetch.next_id(), Some(5));
    fetch.record(Ok(named("5", "five")));
    assert_eq!(fetch.next_id(), Some(3));
    fetch.record(Ok(named("3", "three")));
    assert_eq!(fetch.next_id(), Some(8));
    fetch.record(Ok(named("8", "eight")));
    assert_eq!(fetch.next_id(), None);
    let devices = fetch.finish().unwrap();
    let names: Vec<&str> = devices.iter().map(|d| d.name.as_str()).collect();
    assert_eq!(names, vec!["", "five", "three", "eight"]);
}

#[test]
fn the_first_failure_ends_the_collection() {
    let mut fetch = DetailFetch::start(Ok(vec![5, 3, 8]));
    fetch.record(Ok(named("5", "five")));
    assert_eq!(fetch.next_id(), Some(3));
    fetch.record(Err(FetchError::RequestFailed));
    assert_eq!(fetch.next_id(), None);
    fetch.record(Ok(named("8", "eight")));
    fetch.record(Err(FetchError::JsonParsingFailed));
    assert_eq!(fetch.next_id(), None);
    assert!(matches!(fetch.finish(), Err(FetchError::RequestFailed)));
}

#[test]
fn an_answer_that_cannot_be_read_ends_the_collection_too() {
    let mut fetch = DetailFetch::start(Ok(vec![1, 2]));
    fetch.record(Err(FetchError::JsonParsingFailed));
    assert_eq!(fetch.next_id(), None);
    assert!(matches!(fetch.finish(), Err(FetchError::JsonParsingFailed)));
}

#[test]
fn without_a_device_list_only_the_placeholder_is_collected() {
    let mut fetch = DetailFetch::start(Err(FetchError::RequestFailed));
    assert_eq!(fetch.next_id(), None);
    fetch.record(Ok(named("1", "late")));
    let devices = fetch.finish().unwrap();
    assert_eq!(devices.len(), 1);
    assert_eq!(devices[0].id, "");
}

#[test]
fn a_reply_after_the_end_changes_nothing() {
    let mut fetch = DetailFetch::start(Ok(vec![1]));
    fetch.record(Ok(named("1", "one")));
    fetch.record(Ok(named("2", "two")));
    fetch.record(Err(FetchError::RequestFailed));
    let devices = fetch.finish().unwrap();
    assert_eq!(devices.len(), 2);
    assert_eq!(devices[1].name, "one");
}

#[test]
fn inventory_records_are_indexed() {
    let records = vec![
        DeviceInventory { id: "1".to_string(), hub_name: "A".to_string(), ..Default::default() },
        DeviceInventory { id: "1".to_string(), hub_name: "B".to_string(), ..Default::default() },
    ];
    let outcome = inventory_outcome(InventoryFetch::Records(records));
    assert!(!outcome.login_again);
    let index = outcome.index.unwrap();
    assert_eq!(index.get("1").map(|r| r.hub_name.as_str()), Some("B"));
}

#[test]
fn a_failed_inventory_is_done_without() {
    for error in [FetchError::RequestFailed, FetchError::JsonParsingFailed] {
        let outcome = inventory_outcome(InventoryFetch::Failed(error));
        assert!(outcome.index.is_none());
        assert!(!outcome.login_again);
    }
    let outcome = inventory_outcome(InventoryFetch::NoSession);
    assert!(outcome.index.is_none());
    assert!(!outcome.login_again);
}

#[test]
fn the_login_page_asks_for_a_new_login() {
    let outcome = inventory_outcome(InventoryFetch::LoginRedirect);
    assert!(outcome.index.is_none());
    assert!(outcome.login_again);
}

#[test]
fn a_failed_collection_gives_an_empty_body() {
    let inventory = Some(InventoryIndex::build(Vec::new()));
    assert_eq!(metrics_body(&Err(FetchError::RequestFailed), &inventory), "");
    assert_eq!(metrics_body(&Err(FetchError::JsonParsingFailed), &None), "");
}

#[test]
fn a_collection_gives_its_exposition_text() {
    let device = Device {
        id: "1".to_string(),
        name: "n".to_string(),
        label: "l".to_string(),
        type_: "t".to_string(),
        attributes: vec![DeviceAttribute {
            name: "waterLevel".to_string(),
            current_value: "3".to_string(),
            data_type: "NUMBER".to_string(),
            values: vec!["a".to_string()],
        }],
        capabilities: vec![serde_json::Value::Null, serde_json::Value::Bool(true)],
        commands: vec!["refresh".to_string()],
    };
    assert_eq!(
        metrics_body(&Ok(vec![Device::default(), device]), &None),
        "water_level{device_name=\"n\",device_label=\"l\",device_driver_type=\"t\"} 3\n"
    );
}

#[test]
fn a_scrape_from_replies_to_text() {
    let ids = device_ids_outcome(Ok(vec![entry("10"), entry("oops"), entry(" 11 ")]));
    let mut fetch = DetailFetch::start(ids);
    let mut asked = Vec::new();
    while let Some(id) = fetch.next_id() {
        asked.push(id);
        let mut device = named(&id.to_string(), "dev");
        device.attributes.push(DeviceAttribute {
            name: "switch".to_string(),
            current_value: "on".to_string(),
            data_type: "ENUM".to_string(),
            values: Vec::new(),
        });
        fetch.record(Ok(device));
    }
    assert_eq!(asked, vec![10, 11]);
    let devices = fetch.finish();
    let records =
        vec![DeviceInventory { id: "11".to_string(), hub_name: "H".to_string(), ..Default::default() }];
    let inventory = inventory_outcome(InventoryFetch::Records(records)).index;
    assert_eq!(
        metrics_body(&devices, &inventory),
        "switch{hub_name=\"H\",hub_location_name=\"\",device_network_id=\"\",device_driver_type=\"\",device_driver=\"\",device_name=\"dev\",device_label=\"\"} 1\n"
    );
}
