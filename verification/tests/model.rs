use dataplane_sdk::model::control_plane::ControlPlane;
use dataplane_sdk::model::data_address::{DataAddress, EndpointProperty};
use dataplane_sdk::model::data_flow::DataFlowState;
use dataplane_sdk::postgres::control_plane::model::ControlPlane as DbControlPlane;

fn address(props: &[(&str, &str)]) -> DataAddress {
    let mut address = DataAddress::new("HttpData".to_string());
    for (name, value) in props {
        address
            .endpoint_properties
            .push(EndpointProperty::new(name.to_string(), value.to_string()));
    }
    address
}

#[test]
fn get_property_finds_value() {
    let a = address(&[("endpoint", "http://example.com"), ("token", "abc")]);
    assert_eq!(a.get_property("token"), Some("abc"));
    assert_eq!(a.get_property("endpoint"), Some("http://example.com"));
}

#[test]
fn get_property_missing_is_none() {
    let a = address(&[("endpoint", "http://example.com")]);
    assert_eq!(a.get_property("token"), None);
    assert_eq!(a.get_property(""), None);
}

#[test]
fn get_property_on_empty_address_is_none() {
    let a = DataAddress::new("HttpData".to_string());
    assert_eq!(a.get_property("endpoint"), None);
}

#[test]
fn get_property_first_of_duplicates_wins() {
    let a = address(&[("k", "first"), ("other", "x"), ("k", "second")]);
    assert_eq!(a.get_property("k"), Some("first"));
}

#[test]
fn get_property_is_case_sensitive() {
    let a = address(&[("Token", "abc")]);
    assert_eq!(a.get_property("token"), None);
    assert_eq!(a.get_property("Token"), Some("abc"));
}

#[test]
fn new_values_carry_default_kinds() {
    let a = DataAddress::new("HttpData".to_string());
    assert_eq!(a.kind, "DataAddress");
    assert_eq!(a.endpoint_type, "HttpData");
    assert!(a.endpoint_properties.is_empty());
    let p = EndpointProperty::new("n".to_string(), "v".to_string());
    assert_eq!(p.kind, "EndpointProperty");
    assert_eq!(p.name, "n");
    assert_eq!(p.value, "v");
}

#[test]
fn data_address_equality_compares_all_fields() {
    let a = address(&[("a", "1"), ("b", "2")]);
    let b = address(&[("a", "1"), ("b", "2")]);
    let c = address(&[("a", "1"), ("b", "3")]);
    let d = address(&[("a", "1")]);
    assert!(a == b);
    assert!(a != c);
    assert!(a != d);
    let mut e = address(&[("a", "1"), ("b", "2")]);
    e.endpoint_type = "S3".to_string();
    assert!(a != e);
}

#[test]
fn control_plane_from_row_keeps_fields() {
    let row = DbControlPlane { id: "cp-1".to_string(), url: "http://localhost/cb".to_string() };
    let cp = ControlPlane::from(row.clone());
    assert_eq!(cp, ControlPlane::new("cp-1".to_string(), "http://localhost/cb".to_string()));
    let into: ControlPlane = row.into();
    assert_eq!(into.id, "cp-1");
    assert_eq!(into.url, "http://localhost/cb");
}

#[test]
fn control_plane_clone_and_equality() {
    let cp = ControlPlane::new("a".to_string(), "u".to_string());
    let other = cp.clone();
    assert_eq!(cp, other);
    assert_ne!(cp, ControlPlane::new("a".to_string(), "v".to_string()));
    assert_ne!(cp, ControlPlane::new("b".to_string(), "u".to_string()));
}

#[test]
fn data_flow_state_equality() {
    assert_eq!(DataFlowState::Initiating, DataFlowState::Initiating);
    assert_ne!(DataFlowState::Started, DataFlowState::Suspended);
    let s = DataFlowState::Peparing;
    assert_eq!(s.clone(), DataFlowState::Peparing);
}
