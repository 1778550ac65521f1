use hubitat_exporter::endpoints::{
    device_detail_url, device_detail_url_for, device_list_url, inventory_url, login_url,
};
use hubitat_exporter::hub::{field_text, FieldError, RawField};

#[test]
fn a_string_field_is_itself() {
    assert_eq!(field_text(RawField::Text("open".to_string())), Ok("open".to_string()));
    assert_eq!(field_text(RawField::Text(String::new())), Ok(String::new()));
}

#[test]
fn a_number_field_is_its_notation() {
    assert_eq!(field_text(RawField::Number("21.5".to_string())), Ok("21.5".to_string()));
    assert_eq!(field_text(RawField::Number("-3".to_string())), Ok("-3".to_string()));
}

#[test]
fn a_boolean_field_is_true_or_false() {
    assert_eq!(field_text(RawField::Flag(true)), Ok("true".to_string()));
    assert_eq!(field_text(RawField::Flag(false)), Ok("false".to_string()));
}

#[test]
fn a_null_field_is_the_empty_text() {
    assert_eq!(field_text(RawField::Null), Ok(String::new()));
}

#[test]
fn an_array_or_object_is_of_the_wrong_type() {
    assert_eq!(field_text(RawField::Composite), Err(FieldError::WrongType));
    assert_eq!(FieldError::WrongType.message(), "wrong type");
}

#[test]
fn the_addresses_of_the_hub() {
    assert_eq!(login_url("192.168.1.2"), "http://192.168.1.2/login");
    assert_eq!(inventory_url("192.168.1.2"), "http://192.168.1.2/device/list/all/data");
    assert_eq!(
        device_list_url("hub.local", "42", "secret"),
        "http://hub.local/apps/api/42/devices?access_token=secret"
    );
    assert_eq!(
        device_detail_url("hub.local", "42", "secret", 7),
        "http://hub.local/apps/api/42/devices/7?access_token=secret"
    );
    assert_eq!(
        device_detail_url("hub.local", "42", "secret", 4294967295),
        "http://hub.local/apps/api/42/devices/4294967295?access_token=secret"
    );
    assert_eq!(
        device_detail_url("hub.local", "42", "secret", 0),
        "http://hub.local/apps/api/42/devices/0?access_token=secret"
    );
    assert_eq!(
        device_detail_url_for("h", "a", "t", "d"),
        "http://h/apps/api/a/devices/d?access_token=t"
    );
}

#[test]
fn addresses_take_their_parts_as_they_are() {
    assert_eq!(login_url(""), "http:///login");
    assert_eq!(device_list_url("h:8080", "a b", "t&u"), "http://h:8080/apps/api/a b/devices?access_token=t&u");
}
