//! The exposition text: one line for every attribute that has a numeric
//! value, labelled with what is known of its device.
//!
//! Devices come in the order in which they were fetched and attributes in
//! the order in which the hub reports them. Nothing is sorted and nothing is
//! left out as a duplicate.

use vstd::prelude::*;
use vstd::string::StringExecFns;
use convert_case::{Case, Casing};
use crate::hub::{
    Attribute, Device, DeviceAttribute, DeviceDetail, DeviceInventory, InventoryRecord,
    attributes_view, devices_view, placeholder, texts,
};
use crate::inventory::InventoryIndex;
use crate::rules::{Rule, normalize, normalize_in, rule_table, rules_view, standard_rules};

verus! {

/// The snake-case form that `convert_case` gives a name.
pub uninterp spec fn snake_case(name: Seq<char>) -> Seq<char>;

/// Calls `convert_case`'s `Casing::to_case` with `Case::Snake`. Trusted: the
/// result is a function of the name alone, which splits it into words at the
/// crate's default boundaries and joins the lower-cased words with
/// underscores.
#[verifier::external_body]
pub(crate) fn to_snake_case(name: &str) -> (metric: String)
    ensures
        metric@ == snake_case(name@),
{
    name.to_case(Case::Snake)
}

/// The labels of a device that is rendered without the inventory.
pub open spec fn simple_labels(device: DeviceDetail) -> Seq<char> {
    "device_name=\""@ + device.name + "\",device_label=\""@ + device.label
        + "\",device_driver_type=\""@ + device.type_ + "\""@
}

/// The labels of a device that is rendered with its inventory record.
pub open spec fn detailed_labels(device: DeviceDetail, record: InventoryRecord) -> Seq<char> {
    "hub_name=\""@ + record.hub_name + "\",hub_location_name=\""@ + record.location_name
        + "\",device_network_id=\""@ + record.device_network_id + "\",device_driver_type=\""@
        + device.type_ + "\",device_driver=\""@ + record.device_type_name + "\",device_name=\""@
        + device.name + "\",device_label=\""@ + device.label + "\""@
}

/// One line of exposition text.
pub open spec fn line(metric: Seq<char>, labels: Seq<char>, value: Seq<char>) -> Seq<char> {
    metric + "{"@ + labels + "} "@ + value + "\n"@
}

/// The line of an attribute, empty where the attribute has no numeric value.
pub open spec fn attribute_line(attribute: Attribute, labels: Seq<char>) -> Seq<char> {
    match normalize(attribute.name, attribute.data_type, attribute.current_value) {
        Some(value) => line(snake_case(attribute.name), labels, value),
        None => Seq::empty(),
    }
}

/// The lines of a list of attributes, in the order of the list.
pub open spec fn attribute_lines(attributes: Seq<Attribute>, labels: Seq<char>) -> Seq<char>
    decreases attributes.len(),
{
    if attributes.len() == 0 {
        Seq::empty()
    } else {
        attribute_lines(attributes.drop_last(), labels) + attribute_line(
            attributes.last(),
            labels,
        )
    }
}

/// The lines of a device. Without an inventory the device is rendered with
/// the simple labels. With one, it is rendered with the detailed labels where
/// the inventory knows its identifier, and has no lines where it does not.
pub open spec fn device_lines(
    device: DeviceDetail,
    inventory: Option<Map<Seq<char>, InventoryRecord>>,
) -> Seq<char> {
    match inventory {
        None => attribute_lines(device.attributes, simple_labels(device)),
        Some(index) => if index.contains_key(device.id) {
            attribute_lines(device.attributes, detailed_labels(device, index[device.id]))
        } else {
            Seq::empty()
        },
    }
}

/// The exposition text of a list of devices, in the order of the list.
pub open spec fn exposition(
    devices: Seq<DeviceDetail>,
    inventory: Option<Map<Seq<char>, InventoryRecord>>,
) -> Seq<char>
    decreases devices.len(),
{
    if devices.len() == 0 {
        Seq::empty()
    } else {
        exposition(devices.drop_last(), inventory) + device_lines(devices.last(), inventory)
    }
}

/// Whether a device is to be warned about: it has an identifier, there is an
/// inventory, and the inventory does not know the identifier.
pub open spec fn is_unmatched(
    device: DeviceDetail,
    inventory: Option<Map<Seq<char>, InventoryRecord>>,
) -> bool {
    match inventory {
        None => false,
        Some(index) => device.id.len() > 0 && !index.contains_key(device.id),
    }
}

/// The identifiers to warn about, in the order of the devices.
pub open spec fn unmatched_ids(
    devices: Seq<DeviceDetail>,
    inventory: Option<Map<Seq<char>, InventoryRecord>>,
) -> Seq<Seq<char>>
    decreases devices.len(),
{
    if devices.len() == 0 {
        Seq::empty()
    } else if is_unmatched(devices.last(), inventory) {
        unmatched_ids(devices.drop_last(), inventory).push(devices.last().id)
    } else {
        unmatched_ids(devices.drop_last(), inventory)
    }
}

/// The inventory as the contracts see it.
pub open spec fn inventory_view(inventory: Option<InventoryIndex>) -> Option<
    Map<Seq<char>, InventoryRecord>,
> {
    match inventory {
        Some(index) => Some(index@),
        None => None,
    }
}

/// One line of exposition text: the metric name, the labels in braces, a
/// space, the value and a line feed.
pub fn metric_line(metric: &str, labels: &str, value: &str) -> (text: String)
    ensures
        text@ == line(metric@, labels@, value@),
{
    let mut text = String::new();
    text.append(metric);
    text.append("{");
    text.append(labels);
    text.append("} ");
    text.append(value);
    text.append("\n");
    assert(text@ =~= line(metric@, labels@, value@));
    text
}

/// The labels of `device` for rendering without the inventory.
pub fn simple_label_text(device: &Device) -> (labels: String)
    ensures
        labels@ == simple_labels(device@),
{
    let mut labels = String::new();
    labels.append("device_name=\"");
    labels.append(device.name.as_str());
    labels.append("\",device_label=\"");
    labels.append(device.label.as_str());
    labels.append("\",device_driver_type=\"");
    labels.append(device.type_.as_str());
    labels.append("\"");
    assert(labels@ =~= simple_labels(device@));
    labels
}

/// The labels of `device` for rendering with its inventory record.
pub fn detailed_label_text(device: &Device, record: &DeviceInventory) -> (labels: String)
    ensures
        labels@ == detailed_labels(device@, record@),
{
    let mut labels = String::new();
    labels.append("hub_name=\"");
    labels.append(record.hub_name.as_str());
    labels.append("\",hub_location_name=\"");
    labels.append(record.location_name.as_str());
    labels.append("\",device_network_id=\"");
    labels.append(record.device_network_id.as_str());
    labels.append("\",device_driver_type=\"");
    labels.append(device.type_.as_str());
    labels.append("\",device_driver=\"");
    labels.append(record.device_type_name.as_str());
    labels.append("\",device_name=\"");
    labels.append(device.name.as_str());
    labels.append("\",device_label=\"");
    labels.append(device.label.as_str());
    labels.append("\"");
    assert(labels@ =~= detailed_labels(device@, record@));
    labels
}

/// Appends to `text` the lines of `attributes` under `labels`.
fn append_attribute_lines(
    text: &mut String,
    table: &Vec<Rule>,
    attributes: &Vec<DeviceAttribute>,
    labels: &str,
)
    requires
        rules_view(table@) == rule_table(),
    ensures
        final(text)@ == old(text)@ + attribute_lines(
            attributes_view(attributes@),
            labels@,
        ),
{
    let ghost all = attributes_view(attributes@);
    let ghost before = text@;
    assert(text@ =~= before + attribute_lines(all.take(0), labels@));
    let mut i: usize = 0;
    while i < attributes.len()
        invariant
            i <= attributes.len(),
            all == attributes_view(attributes@),
            rules_view(table@) == rule_table(),
            text@ == before + attribute_lines(all.take(i as int), labels@),
        decreases attributes.len() - i,
    {
        let attribute = &attributes[i];
        proof {
            assert(all.take(i as int + 1).drop_last() =~= all.take(i as int));
            assert(all.take(i as int + 1).last() == attribute@);
        }
        let value = normalize_in(
            table,
            attribute.name.as_str(),
            attribute.data_type.as_str(),
            attribute.current_value.as_str(),
        );
        let ghost so_far = text@;
        match value {
            Some(value) => {
                let metric = to_snake_case(attribute.name.as_str());
                let rendered = metric_line(metric.as_str(), labels, value.as_str());
                text.append(rendered.as_str());
            },
            None => {},
        }
        assert(text@ =~= so_far + attribute_line(attribute@, labels@));
        assert(text@ =~= before + attribute_lines(all.take(i as int + 1), labels@));
        i += 1;
    }
    assert(all.take(all.len() as int) =~= all);
}

/// The exposition text of `devices`.
///
/// Without an inventory every device is rendered with the simple labels,
/// whatever its identifier. With an inventory, a device whose identifier the
/// inventory knows is rendered with the detailed labels, and a device whose
/// identifier it does not know has no lines.
pub fn build_metrics(devices: &Vec<Device>, inventory: &Option<InventoryIndex>) -> (text: String)
    ensures
        text@ == exposition(devices_view(devices@), inventory_view(*inventory)),
{
    let table = standard_rules();
    let ghost all = devices_view(devices@);
    let ghost index = inventory_view(*inventory);
    let mut text = String::new();
    assert(text@ =~= exposition(all.take(0), index));
    let mut i: usize = 0;
    while i < devices.len()
        invariant
            i <= devices.len(),
            all == devices_view(devices@),
            index == inventory_view(*inventory),
            rules_view(table@) == rule_table(),
            text@ == exposition(all.take(i as int), index),
        decreases devices.len() - i,
    {
        let device = &devices[i];
        proof {
            assert(all.take(i as int + 1).drop_last() =~= all.take(i as int));
            assert(all.take(i as int + 1).last() == device@);
        }
        let ghost so_far = text@;
        match inventory {
            Some(known) => {
                match known.get(device.id.as_str()) {
                    Some(record) => {
                        let labels = detailed_label_text(device, record);
                        append_attribute_lines(
                            &mut text,
                            &table,
                            &device.attributes,
                            labels.as_str(),
                        );
                    },
                    None => {},
                }
            },
            None => {
                let labels = simple_label_text(device);
                append_attribute_lines(&mut text, &table, &device.attributes, labels.as_str());
            },
        }
        assert(text@ =~= so_far + device_lines(device@, index));
        i += 1;
    }
    assert(all.take(all.len() as int) =~= all);
    text
}

/// The identifiers of the devices that the inventory should know and does
/// not, in the order of the devices: those to warn about. A device without
/// an identifier is passed over in silence, and without an inventory there
/// is nothing to warn about.
pub fn unmatched_devices(devices: &Vec<Device>, inventory: &Option<InventoryIndex>) -> (ids: Vec<
    String,
>)
    ensures
        texts(ids@) == unmatched_ids(devices_view(devices@), inventory_view(*inventory)),
{
    let ghost all = devices_view(devices@);
    let ghost index = inventory_view(*inventory);
    let mut ids: Vec<String> = Vec::new();
    assert(texts(ids@) =~= unmatched_ids(all.take(0), index));
    let mut i: usize = 0;
    while i < devices.len()
        invariant
            i <= devices.len(),
            all == devices_view(devices@),
            index == inventory_view(*inventory),
            texts(ids@) == unmatched_ids(all.take(i as int), index),
        decreases devices.len() - i,
    {
        let device = &devices[i];
        proof {
            assert(all.take(i as int + 1).drop_last() =~= all.take(i as int));
            assert(all.take(i as int + 1).last() == device@);
        }
        let ghost so_far = texts(ids@);
        match inventory {
            Some(known) => {
                if !device.id.as_str().is_empty() && known.get(device.id.as_str()).is_none() {
                    ids.push(device.id.clone());
                    assert(texts(ids@) =~= so_far.push(device.id@));
                }
            },
            None => {},
        }
        i += 1;
    }
    assert(all.take(all.len() as int) =~= all);
    ids
}

/// The text of two lists of devices, one after the other, is the text of the
/// first followed by the text of the second.
pub proof fn lemma_exposition_concat(
    first: Seq<DeviceDetail>,
    second: Seq<DeviceDetail>,
    inventory: Option<Map<Seq<char>, InventoryRecord>>,
)
    ensures
        exposition(first + second, inventory) == exposition(first, inventory) + exposition(
            second,
            inventory,
        ),
    decreases second.len(),
{
    if second.len() == 0 {
        assert(first + second =~= first);
        assert(exposition(first, inventory) + exposition(second, inventory) =~= exposition(
            first,
            inventory,
        ));
    } else {
        assert((first + second).drop_last() =~= first + second.drop_last());
        assert((first + second).last() == second.last());
        lemma_exposition_concat(first, second.drop_last(), inventory);
        assert(exposition(first + second, inventory) =~= exposition(first, inventory)
            + exposition(second, inventory));
    }
}

/// The text of a single device is its lines.
pub proof fn lemma_exposition_single(
    device: DeviceDetail,
    inventory: Option<Map<Seq<char>, InventoryRecord>>,
)
    ensures
        exposition(seq![device], inventory) == device_lines(device, inventory),
{
    reveal_with_fuel(exposition, 2);
    assert(seq![device].drop_last() =~= Seq::<DeviceDetail>::empty());
    assert(exposition(seq![device], inventory) =~= device_lines(device, inventory));
}

/// A device that the inventory knows is rendered with the detailed labels,
/// made of its own name, label and type and of its record's hub name,
/// location, network identifier and device type name.
pub proof fn lemma_matched_device(
    before: Seq<DeviceDetail>,
    device: DeviceDetail,
    after: Seq<DeviceDetail>,
    index: Map<Seq<char>, InventoryRecord>,
)
    requires
        index.contains_key(device.id),
    ensures
        exposition(before + seq![device] + after, Some(index)) == exposition(before, Some(index))
            + attribute_lines(device.attributes, detailed_labels(device, index[device.id]))
            + exposition(after, Some(index)),
        !is_unmatched(device, Some(index)),
{
    lemma_exposition_concat(before + seq![device], after, Some(index));
    lemma_exposition_concat(before, seq![device], Some(index));
    lemma_exposition_single(device, Some(index));
}

/// A device that the inventory does not know has no lines, and the text of
/// the devices around it is what it would be without it. It is warned about
/// exactly where it has an identifier.
pub proof fn lemma_unmatched_device(
    before: Seq<DeviceDetail>,
    device: DeviceDetail,
    after: Seq<DeviceDetail>,
    index: Map<Seq<char>, InventoryRecord>,
)
    requires
        !index.contains_key(device.id),
    ensures
        device_lines(device, Some(index)) == Seq::<char>::empty(),
        exposition(before + seq![device] + after, Some(index)) == exposition(
            before + after,
            Some(index),
        ),
        is_unmatched(device, Some(index)) <==> device.id.len() > 0,
{
    lemma_exposition_concat(before + seq![device], after, Some(index));
    lemma_exposition_concat(before, seq![device], Some(index));
    lemma_exposition_single(device, Some(index));
    lemma_exposition_concat(before, after, Some(index));
    assert(exposition(before, Some(index)) + Seq::<char>::empty() =~= exposition(
        before,
        Some(index),
    ));
}

/// The identifiers to warn about are those of the unmatched devices: a
/// device is warned about exactly where it is unmatched.
pub proof fn lemma_unmatched_ids_concat(
    first: Seq<DeviceDetail>,
    second: Seq<DeviceDetail>,
    inventory: Option<Map<Seq<char>, InventoryRecord>>,
)
    ensures
        unmatched_ids(first + second, inventory) == unmatched_ids(first, inventory)
            + unmatched_ids(second, inventory),
    decreases second.len(),
{
    if second.len() == 0 {
        assert(first + second =~= first);
        assert(unmatched_ids(first, inventory) + unmatched_ids(second, inventory)
            =~= unmatched_ids(first, inventory));
    } else {
        assert((first + second).drop_last() =~= first + second.drop_last());
        assert((first + second).last() == second.last());
        lemma_unmatched_ids_concat(first, second.drop_last(), inventory);
        assert(unmatched_ids(first + second, inventory) =~= unmatched_ids(first, inventory)
            + unmatched_ids(second, inventory));
    }
}

/// Without an inventory every device is rendered with the simple labels,
/// whatever its identifier, and nothing is warned about.
pub proof fn lemma_simple_mode(
    before: Seq<DeviceDetail>,
    device: DeviceDetail,
    after: Seq<DeviceDetail>,
)
    ensures
        exposition(before + seq![device] + after, None) == exposition(before, None)
            + attribute_lines(device.attributes, simple_labels(device)) + exposition(after, None),
        unmatched_ids(before + seq![device] + after, None) == Seq::<Seq<char>>::empty(),
{
    lemma_exposition_concat(before + seq![device], after, None);
    lemma_exposition_concat(before, seq![device], None);
    lemma_exposition_single(device, None);
    lemma_no_warning_without_inventory(before + seq![device] + after);
}

/// The placeholder device has no lines and is not warned about, whatever the
/// inventory holds.
pub proof fn lemma_placeholder_is_silent(inventory: Option<Map<Seq<char>, InventoryRecord>>)
    ensures
        device_lines(placeholder(), inventory) == Seq::<char>::empty(),
        !is_unmatched(placeholder(), inventory),
{
}

/// Without an inventory nothing is warned about.
pub proof fn lemma_no_warning_without_inventory(devices: Seq<DeviceDetail>)
    ensures
        unmatched_ids(devices, None) == Seq::<Seq<char>>::empty(),
    decreases devices.len(),
{
    if devices.len() > 0 {
        lemma_no_warning_without_inventory(devices.drop_last());
    }
}

/// Building twice from the same devices and the same inventory gives the
/// same text: whatever two runs of `build_metrics` return on inputs that
/// look alike is character for character the same.
pub proof fn lemma_build_metrics_repeatable(
    devices: Seq<Device>,
    inventory: Option<InventoryIndex>,
    other_devices: Seq<Device>,
    other_inventory: Option<InventoryIndex>,
    text: Seq<char>,
    other_text: Seq<char>,
)
    requires
        devices_view(devices) == devices_view(other_devices),
        inventory_view(inventory) == inventory_view(other_inventory),
        text == exposition(devices_view(devices), inventory_view(inventory)),
        other_text == exposition(devices_view(other_devices), inventory_view(other_inventory)),
    ensures
        text == other_text,
{
}

} // verus!
