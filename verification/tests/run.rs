use netplan_wifi::cli::ValidationError;
use netplan_wifi::merge::merge_wireless_network;
use netplan_wifi::netplan::{Ethernet, NetplanFile, Network};
use netplan_wifi::run::{after_apply, after_read, after_write, Failure, Step, WIRELESS_INTERFACE};
use netplan_wifi::table::Table;

fn wired_only() -> NetplanFile {
    let mut ethernets = Table::new();
    ethernets.insert(
        "eth0".to_string(),
        Ethernet { dhcp4: Some(true), optional: None, access_points: None },
    );
    NetplanFile { network: Network { ethernets, wifis: None, version: 2 } }
}

#[test]
fn wireless_interface_is_wlan0() {
    assert_eq!(WIRELESS_INTERFACE, "wlan0");
}

#[test]
fn document_that_was_read_is_merged_and_stored() {
    let next = after_read("Home", "password123", Ok(wired_only()));
    let expected = merge_wireless_network(wired_only(), "wlan0", "Home", "password123");
    assert_eq!(next, Step::Write(expected));
    match next {
        Step::Write(doc) => {
            let wifis = doc.network.wifis.as_ref().unwrap();
            let points = wifis.get("wlan0").unwrap().access_points.as_ref().unwrap();
            assert_eq!(points.get("Home").unwrap().password, "password123");
        }
        _ => panic!("the merged document is to be stored"),
    }
}

#[test]
fn failure_to_read_ends_the_run() {
    let next = after_read("Home", "password123", Err("No such file".to_string()));
    assert_eq!(next, Step::Abort(Failure::Read("No such file".to_string())));
}

#[test]
fn stored_document_is_applied() {
    assert_eq!(after_write(Ok(())), Step::Apply);
}

#[test]
fn failure_to_store_ends_the_run() {
    assert_eq!(
        after_write(Err("Permission denied".to_string())),
        Step::Abort(Failure::Write("Permission denied".to_string()))
    );
}

#[test]
fn applied_document_finishes_the_run() {
    assert_eq!(after_apply(Ok(())), Step::Finish);
}

#[test]
fn failure_to_apply_ends_the_run() {
    assert_eq!(
        after_apply(Err("Invalid YAML".to_string())),
        Step::Abort(Failure::Apply("Invalid YAML".to_string()))
    );
}

#[test]
fn messages_of_validation_errors() {
    assert_eq!(ValidationError::MissingNetworkValue.message(), "Missing value for '-u'");
    assert_eq!(ValidationError::MissingSecretValue.message(), "Missing value for '-p'");
    assert_eq!(
        ValidationError::SecretLength.message(),
        "Password invalid. Must be between 8 and 63 characters long. Inclusive."
    );
    assert_eq!(ValidationError::Incomplete.message(), "WiFi Password or SSID not specified.");
}

#[test]
fn messages_of_failures() {
    assert_eq!(
        Failure::Usage(ValidationError::Incomplete).message(),
        "WiFi Password or SSID not specified."
    );
    assert_eq!(Failure::Scan("iwlist: not found".to_string()).message(), "iwlist: not found");
    assert_eq!(
        Failure::Read("No such file".to_string()).message(),
        "Failed to read current Netplan configuration: No such file"
    );
    assert_eq!(
        Failure::Write("Permission denied".to_string()).message(),
        "Failed to write new Netplan configuration: Permission denied"
    );
    assert_eq!(
        Failure::Apply("Invalid YAML".to_string()).message(),
        "Failed to apply Netplan configuration: Invalid YAML"
    );
}

#[test]
fn every_failure_exits_with_status_one() {
    assert_eq!(Failure::Usage(ValidationError::SecretLength).exit_status(), 1);
    assert_eq!(Failure::Scan(String::new()).exit_status(), 1);
    assert_eq!(Failure::Read(String::new()).exit_status(), 1);
    assert_eq!(Failure::Write(String::new()).exit_status(), 1);
    assert_eq!(Failure::Apply(String::new()).exit_status(), 1);
}
