use netplan_wifi::merge::merge_wireless_network;
use netplan_wifi::netplan::{AccessPoint, Ethernet, NetplanFile, Network};
use netplan_wifi::table::Table;

fn wired_only() -> NetplanFile {
    let mut ethernets = Table::new();
    ethernets.insert(
        "eth0".to_string(),
        Ethernet { dhcp4: Some(true), optional: None, access_points: None },
    );
    NetplanFile { network: Network { ethernets, wifis: None, version: 2 } }
}

fn secret_of(doc: &NetplanFile, interface: &str, network: &str) -> Option<String> {
    let wifis = doc.network.wifis.as_ref()?;
    let points = wifis.get(interface)?.access_points.as_ref()?;
    Some(points.get(network)?.password.clone())
}

fn names<V>(table: &Table<V>) -> Vec<String> {
    let mut names = Vec::new();
    let mut i = 0;
    while let Some((name, _)) = table.entry(i) {
        names.push(name.clone());
        i += 1;
    }
    names
}

#[test]
fn merge_into_wired_only_document() {
    let merged = merge_wireless_network(wired_only(), "wlan0", "Home", "password123");

    assert_eq!(merged.network.version, 2);
    assert_eq!(merged.network.ethernets, wired_only().network.ethernets);
    let eth0 = merged.network.ethernets.get("eth0").unwrap();
    assert_eq!(eth0.dhcp4, Some(true));
    assert_eq!(eth0.optional, None);
    assert_eq!(eth0.access_points, None);

    let wifis = merged.network.wifis.as_ref().unwrap();
    let wlan0 = wifis.get("wlan0").unwrap();
    assert_eq!(wlan0.dhcp4, Some(true));
    assert_eq!(wlan0.optional, Some(false));
    let points = wlan0.access_points.as_ref().unwrap();
    assert_eq!(points.get("Home").unwrap().password, "password123");
}

#[test]
fn merge_without_wireless_gives_one_interface_with_one_network() {
    let merged = merge_wireless_network(wired_only(), "wlan0", "Home", "password123");
    let wifis = merged.network.wifis.as_ref().unwrap();
    assert_eq!(wifis.len(), 1);
    assert_eq!(names(wifis), vec!["wlan0".to_string()]);
    let points = wifis.get("wlan0").unwrap().access_points.as_ref().unwrap();
    assert_eq!(points.len(), 1);
    assert_eq!(names(points), vec!["Home".to_string()]);
}

#[test]
fn merged_document_holds_the_new_access_point() {
    let mut wifis = Table::new();
    wifis.insert(
        "wlan1".to_string(),
        Ethernet { dhcp4: None, optional: Some(true), access_points: None },
    );
    let doc = NetplanFile {
        network: Network { ethernets: Table::new(), wifis: Some(wifis), version: 2 },
    };
    let merged = merge_wireless_network(doc, "wlan1", "Office", "correct horse");
    assert_eq!(secret_of(&merged, "wlan1", "Office"), Some("correct horse".to_string()));
}

#[test]
fn second_network_keeps_the_first() {
    let once = merge_wireless_network(wired_only(), "wlan0", "Home", "password123");
    let twice = merge_wireless_network(once, "wlan0", "Office", "another secret");
    assert_eq!(secret_of(&twice, "wlan0", "Home"), Some("password123".to_string()));
    assert_eq!(secret_of(&twice, "wlan0", "Office"), Some("another secret".to_string()));
    let wifis = twice.network.wifis.as_ref().unwrap();
    assert_eq!(wifis.len(), 1);
    let points = wifis.get("wlan0").unwrap().access_points.as_ref().unwrap();
    assert_eq!(names(points), vec!["Home".to_string(), "Office".to_string()]);
}

#[test]
fn later_secret_wins_without_a_second_entry() {
    let once = merge_wireless_network(wired_only(), "wlan0", "Home", "password123");
    let twice = merge_wireless_network(once, "wlan0", "Home", "password456");
    assert_eq!(secret_of(&twice, "wlan0", "Home"), Some("password456".to_string()));
    let wifis = twice.network.wifis.as_ref().unwrap();
    assert_eq!(wifis.len(), 1);
    let points = wifis.get("wlan0").unwrap().access_points.as_ref().unwrap();
    assert_eq!(points.len(), 1);
    assert_eq!(twice, merge_wireless_network(wired_only(), "wlan0", "Home", "password456"));
}

#[test]
fn merging_the_same_secret_again_changes_nothing() {
    let once = merge_wireless_network(wired_only(), "wlan0", "Home", "password123");
    let twice = merge_wireless_network(
        merge_wireless_network(wired_only(), "wlan0", "Home", "password123"),
        "wlan0",
        "Home",
        "password123",
    );
    assert_eq!(once, twice);
}

#[test]
fn wired_interfaces_stay_as_they_were() {
    let mut ethernets = Table::new();
    ethernets.insert(
        "eth1".to_string(),
        Ethernet { dhcp4: Some(false), optional: Some(true), access_points: None },
    );
    ethernets.insert(
        "eth0".to_string(),
        Ethernet { dhcp4: None, optional: None, access_points: None },
    );
    let doc = NetplanFile { network: Network { ethernets, wifis: None, version: 7 } };
    let merged = merge_wireless_network(doc, "wlan0", "Home", "password123");
    assert_eq!(merged.network.version, 7);
    assert_eq!(names(&merged.network.ethernets), vec!["eth1".to_string(), "eth0".to_string()]);
    let eth1 = merged.network.ethernets.get("eth1").unwrap();
    assert_eq!(
        *eth1,
        Ethernet { dhcp4: Some(false), optional: Some(true), access_points: None }
    );
    let eth0 = merged.network.ethernets.get("eth0").unwrap();
    assert_eq!(*eth0, Ethernet { dhcp4: None, optional: None, access_points: None });
}

#[test]
fn known_interface_keeps_its_settings() {
    let mut points = Table::new();
    points.insert("Cafe".to_string(), AccessPoint { password: "espresso!".to_string() });
    let mut wifis = Table::new();
    wifis.insert(
        "wlan0".to_string(),
        Ethernet { dhcp4: Some(false), optional: Some(true), access_points: Some(points) },
    );
    let doc = NetplanFile {
        network: Network { ethernets: Table::new(), wifis: Some(wifis), version: 2 },
    };
    let merged = merge_wireless_network(doc, "wlan0", "Home", "password123");
    let wlan0 = merged.network.wifis.as_ref().unwrap().get("wlan0").unwrap();
    assert_eq!(wlan0.dhcp4, Some(false));
    assert_eq!(wlan0.optional, Some(true));
    assert_eq!(secret_of(&merged, "wlan0", "Cafe"), Some("espresso!".to_string()));
    assert_eq!(secret_of(&merged, "wlan0", "Home"), Some("password123".to_string()));
}

#[test]
fn known_interface_without_settings_gets_none() {
    let mut wifis = Table::new();
    wifis.insert(
        "wlan0".to_string(),
        Ethernet { dhcp4: None, optional: None, access_points: None },
    );
    let doc = NetplanFile {
        network: Network { ethernets: Table::new(), wifis: Some(wifis), version: 2 },
    };
    let merged = merge_wireless_network(doc, "wlan0", "Home", "password123");
    let wlan0 = merged.network.wifis.as_ref().unwrap().get("wlan0").unwrap();
    assert_eq!(wlan0.dhcp4, None);
    assert_eq!(wlan0.optional, None);
    assert_eq!(wlan0.access_points.as_ref().unwrap().len(), 1);
}

#[test]
fn other_wireless_interfaces_stay_as_they_were() {
    let mut points = Table::new();
    points.insert("Lab".to_string(), AccessPoint { password: "oscilloscope".to_string() });
    let mut wifis = Table::new();
    wifis.insert(
        "wlan1".to_string(),
        Ethernet { dhcp4: Some(true), optional: None, access_points: Some(points) },
    );
    wifis.insert(
        "wlan0".to_string(),
        Ethernet { dhcp4: Some(true), optional: Some(false), access_points: None },
    );
    let doc = NetplanFile {
        network: Network { ethernets: Table::new(), wifis: Some(wifis), version: 2 },
    };
    let merged = merge_wireless_network(doc, "wlan0", "Home", "password123");
    let wifis = merged.network.wifis.as_ref().unwrap();
    assert_eq!(names(wifis), vec!["wlan1".to_string(), "wlan0".to_string()]);
    assert_eq!(secret_of(&merged, "wlan1", "Lab"), Some("oscilloscope".to_string()));
    assert_eq!(secret_of(&merged, "wlan1", "Home"), None);
    assert_eq!(wifis.get("wlan1").unwrap().optional, None);
}

#[test]
fn empty_wireless_table_gets_the_interface() {
    let doc = NetplanFile {
        network: Network { ethernets: Table::new(), wifis: Some(Table::new()), version: 2 },
    };
    let merged = merge_wireless_network(doc, "wlan0", "Home", "password123");
    assert_eq!(merged, {
        let mut expected = wired_only();
        expected.network.ethernets = Table::new();
        merge_wireless_network(expected, "wlan0", "Home", "password123")
    });
}

#[test]
fn fresh_wireless_interface_has_the_defaults() {
    let fresh = Ethernet::new_wireless();
    assert_eq!(fresh, Ethernet { dhcp4: Some(true), optional: Some(false), access_points: None });
}

#[test]
fn with_access_point_makes_the_access_points_present() {
    let bare = Ethernet { dhcp4: None, optional: Some(true), access_points: None };
    let updated = bare.with_access_point("Home", "password123");
    assert_eq!(updated.dhcp4, None);
    assert_eq!(updated.optional, Some(true));
    let points = updated.access_points.as_ref().unwrap();
    assert_eq!(points.len(), 1);
    assert_eq!(points.get("Home").unwrap().password, "password123");
}
