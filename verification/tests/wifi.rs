use wilens::networksetup::{
    networksetup_args, networksetup_outcome, parse_hardware_ports, reports_failure,
    wifi_interface_from_listing,
};

#[test]
fn detects_networksetup_failure_text() {
    assert!(reports_failure("Could not find network MyWifi."));
    assert!(reports_failure(
        "Failed to join network MyWifi.\nError: -3900  The operation couldn't be completed."
    ));
    assert!(!reports_failure(""));
}

#[test]
fn parses_networksetup_hardware_ports() {
    let ports = parse_hardware_ports(
        "Hardware Port: Wi-Fi\nDevice: en0\nEthernet Address: aa:bb:cc:dd:ee:ff\n\nHardware Port: Bluetooth PAN\nDevice: en7\n",
    );

    assert_eq!(ports.len(), 2);
    assert_eq!(ports[0].port, "Wi-Fi");
    assert_eq!(ports[0].device, "en0");
    assert_eq!(ports[1].port, "Bluetooth PAN");
    assert_eq!(ports[1].device, "en7");
}

#[test]
fn failure_text_is_matched_in_any_case() {
    assert!(reports_failure("ERROR"));
    assert!(reports_failure("it FAILED"));
    assert!(!reports_failure("Joined the network."));
}

#[test]
fn incomplete_port_blocks_are_dropped() {
    let ports = parse_hardware_ports(
        "Hardware Port: Thunderbolt Bridge\n\nDevice: en9\n\n  Hardware Port:   AirPort  \r\n  Device: en1\r\n",
    );
    assert_eq!(ports.len(), 1);
    assert_eq!(ports[0].port, "AirPort");
    assert_eq!(ports[0].device, "en1");
}

#[test]
fn wifi_interface_is_the_first_wifi_port() {
    let listing = "Hardware Port: Ethernet\nDevice: en3\n\nHardware Port: Wi-Fi\nDevice: en0\n\nHardware Port: AirPort\nDevice: en1\n";
    assert_eq!(wifi_interface_from_listing(true, listing, "").unwrap(), "en0");
    assert_eq!(
        wifi_interface_from_listing(true, "Hardware Port: Ethernet\nDevice: en3\n", "").unwrap_err(),
        "Unable to find the Wi-Fi interface on this Mac."
    );
    assert_eq!(wifi_interface_from_listing(false, listing, " denied \n").unwrap_err(), "denied");
}

#[test]
fn networksetup_arguments() {
    assert_eq!(
        networksetup_args("en0", "Cafe", "wpa", Some("pw")).unwrap(),
        vec!["-setairportnetwork", "en0", "Cafe", "pw"]
    );
    assert_eq!(
        networksetup_args("en0", "Guest", "nopass", Some("ignored")).unwrap(),
        vec!["-setairportnetwork", "en0", "Guest"]
    );
    assert_eq!(
        networksetup_args("en0", "Cafe", "wep", None).unwrap_err(),
        "Password is required for secured networks."
    );
}

#[test]
fn networksetup_outcome_reads_the_text() {
    assert_eq!(networksetup_outcome("en0".to_string(), true, "", "").unwrap(), "en0");
    assert_eq!(
        networksetup_outcome("en0".to_string(), true, "Could not find network MyWifi.\n", "").unwrap_err(),
        "Could not find network MyWifi."
    );
    assert_eq!(
        networksetup_outcome("en0".to_string(), false, "out", " err ").unwrap_err(),
        "err"
    );
    assert_eq!(
        networksetup_outcome("en0".to_string(), false, "", "").unwrap_err(),
        "networksetup failed without an error message."
    );
    // The error output is what is read when there is any.
    assert_eq!(networksetup_outcome("en0".to_string(), true, "Error", "fine").unwrap(), "en0");
}
